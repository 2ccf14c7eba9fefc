//! Requests, the car state, and the engine's error types.

use crate::direction::ElevatorDirection;
use crate::direction::ElevatorDoorsState;
use vstd::prelude::*;

verus! {

/// Why a hall or car call was rejected. The engine state is unchanged
/// whenever one of these is returned.
#[derive(PartialEq, Eq, Structural, Hash, Debug)]
pub enum ElevatorRequestErr {
    /// An identical request is already pending.
    DUPLICATE,
    /// Reserved for future capacity policies; never produced today.
    DENIED,
    /// A car call named the floor the car is already at.
    CurrentFloor,
}

/// Why a floor-arrival notification was rejected.
#[derive(PartialEq, Eq, Structural, Hash, Debug)]
pub enum ElevatorFloorReachErr {
    /// The car was not moving, so no arrival was expected.
    NotMoving,
}

/// An internal-consistency fault: the condition that justified the
/// current car state no longer holds. The engine reports it instead of
/// aborting, so the host can pick its own recovery policy.
#[derive(PartialEq, Eq, Structural, Hash, Clone, Copy, Debug)]
pub enum ElevatorFault {
    /// The car is moving, yet no pending request explains why.
    MissingMovingRequest,
}

/// What the car is doing.
#[derive(PartialEq, Eq, Structural, Hash, Clone, Copy, Debug)]
pub enum ElevatorState {
    /// Travelling toward the target floor in the given direction.
    MOVING(ElevatorDirection),
    /// Stopped with the dwell timer running; the direction records which
    /// way the car was headed when it stopped.
    WAITING(ElevatorDirection, ElevatorDoorsState),
    /// Stationary with no committed direction.
    IDLE,
}

/// A directional travel intent: a direction and a floor. Two requests are
/// equal exactly when both fields match.
#[derive(PartialEq, Eq, Structural, Hash, Clone, Copy, Debug)]
pub struct ElevatorRequest {
    pub direction: ElevatorDirection,
    pub floor: i8,
}

impl ElevatorRequest {
    /// Builds a request from its two fields.
    pub fn new(direction: ElevatorDirection, floor: i8) -> (r: ElevatorRequest)
        ensures
            r == (ElevatorRequest { direction, floor }),
    {
        ElevatorRequest { direction, floor }
    }

    /// The direction the car must travel from `current_floor` to reach this
    /// request's floor; the request's own direction when it is already there.
    pub open spec fn spec_recalculate_direction(self, current_floor: i8) -> ElevatorDirection {
        if current_floor == self.floor {
            self.direction
        } else if current_floor < self.floor {
            ElevatorDirection::UP
        } else {
            ElevatorDirection::DOWN
        }
    }

    /// Recomputes the travel direction toward this request from `current_floor`.
    pub fn recalculate_direction(&self, current_floor: i8) -> (r: ElevatorDirection)
        ensures
            r == self.spec_recalculate_direction(current_floor),
    {
        if current_floor == self.floor {
            self.direction
        } else if current_floor < self.floor {
            ElevatorDirection::UP
        } else {
            ElevatorDirection::DOWN
        }
    }
}

} // verus!
