//! Travel directions and door states.

use vstd::prelude::*;

verus! {

/// The direction of a travel intent: up or down.
#[derive(PartialEq, Eq, Structural, Hash, Clone, Copy, Debug)]
pub enum ElevatorDirection {
    UP,
    DOWN,
}

impl ElevatorDirection {
    /// The opposite direction.
    pub open spec fn spec_opposite(self) -> ElevatorDirection {
        match self {
            ElevatorDirection::UP => ElevatorDirection::DOWN,
            ElevatorDirection::DOWN => ElevatorDirection::UP,
        }
    }

    /// Returns the opposite direction.
    pub fn opposite(&self) -> (r: ElevatorDirection)
        ensures
            r == self.spec_opposite(),
    {
        match self {
            ElevatorDirection::UP => ElevatorDirection::DOWN,
            ElevatorDirection::DOWN => ElevatorDirection::UP,
        }
    }
}

/// The state of the car doors. Dwell is time-based, so the doors are
/// tracked but never opened by the engine itself.
#[derive(PartialEq, Eq, Structural, Hash, Clone, Copy, Debug)]
pub enum ElevatorDoorsState {
    OPEN,
    CLOSED,
}

} // verus!
