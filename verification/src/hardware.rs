//! The hardware-facing trait the host implements for call buttons.

use vstd::prelude::*;

verus! {

/// A pressable input: a hall or car call button. The host's hardware
/// layer implements it; the engine itself never presses anything.
pub trait Button {
    /// Registers one press of the button.
    fn press(&mut self);
}

} // verus!
