//! A single-car elevator dispatch engine.
//!
//! The library accepts hall calls (direction and floor) and car calls
//! (floor only), keeps the set of still-unserved requests, and drives a
//! direction-biased scheduling state machine tick by tick: idle start,
//! en-route pickup, a fixed dwell at every stop, and reversal at the ends
//! of travel. Every operation carries a contract that pins its result and
//! its effect on the engine state down.

pub mod direction;
pub mod display;
pub mod elevator;
pub mod hardware;
pub mod laws;
pub mod policy;
pub mod request;

pub use direction::ElevatorDirection;
pub use direction::ElevatorDoorsState;
pub use display::format_elevator_state;
pub use display::format_request;
pub use elevator::Elevator;
pub use hardware::Button;
pub use request::ElevatorFault;
pub use request::ElevatorFloorReachErr;
pub use request::ElevatorRequest;
pub use request::ElevatorRequestErr;
pub use request::ElevatorState;
