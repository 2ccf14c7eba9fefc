//! The mathematical model of the dispatch engine.
//!
//! Everything the executable engine promises is stated here: an abstract
//! state ([`ElevatorModel`]), the request-selection policies as choice
//! predicates over the pending-request sequence, and the per-tick
//! transition relation ([`state_loop_rel`]) that the engine's `state_loop`
//! is proved to follow.

use crate::direction::ElevatorDirection;
use crate::direction::ElevatorDoorsState;
use crate::request::ElevatorFault;
use crate::request::ElevatorRequest;
use crate::request::ElevatorState;
use vstd::prelude::*;

verus! {

/// How long the car dwells at a stop before it considers further
/// requests, in milliseconds.
pub const WAITING_DURATION_MS: u64 = 5000;

/// The abstract state of the dispatch engine: the car's position and
/// commitment, the pending requests in insertion order, and the dwell
/// timer.
pub ghost struct ElevatorModel {
    pub current_floor: i8,
    pub target_floor: i8,
    pub state: ElevatorState,
    pub requests: Seq<ElevatorRequest>,
    pub waiting_time_ms: u64,
}

/// No request occurs twice: the sequence represents a set.
pub open spec fn unique_requests(s: Seq<ElevatorRequest>) -> bool {
    forall|i: int, j: int| 0 <= i < j < s.len() ==> s[i] != s[j]
}

impl ElevatorModel {
    /// The engine's invariant: the pending requests are duplicate-free,
    /// the dwell timer never reaches the dwell duration between ticks,
    /// and it only runs while the car is waiting.
    pub open spec fn wf(self) -> bool {
        &&& unique_requests(self.requests)
        &&& self.waiting_time_ms < WAITING_DURATION_MS
        &&& !(self.state is WAITING) ==> self.waiting_time_ms == 0
    }
}

/// The state of a freshly created engine: at the ground floor, idle,
/// with nothing pending.
pub open spec fn initial_model() -> ElevatorModel {
    ElevatorModel {
        current_floor: 0,
        target_floor: 0,
        state: ElevatorState::IDLE,
        requests: Seq::empty(),
        waiting_time_ms: 0,
    }
}

/// The absolute distance between two floors.
pub open spec fn floor_distance(a: int, b: int) -> int {
    if a >= b {
        a - b
    } else {
        b - a
    }
}

/// The direction a car call at `floor` derives when the car stands at
/// `current_floor`; meaningful only when the two differ.
pub open spec fn car_call_direction(current_floor: i8, floor: i8) -> ElevatorDirection {
    if current_floor < floor {
        ElevatorDirection::UP
    } else {
        ElevatorDirection::DOWN
    }
}

/// The pending requests after an accepted insertion: the request is
/// appended unless an identical one is already pending.
pub open spec fn insert_request_seq(s: Seq<ElevatorRequest>, r: ElevatorRequest) -> Seq<
    ElevatorRequest,
> {
    if s.contains(r) {
        s
    } else {
        s.push(r)
    }
}

/// `s` with the occurrence of `r` removed; `s` itself when `r` is absent.
pub open spec fn remove_request_seq(s: Seq<ElevatorRequest>, r: ElevatorRequest) -> Seq<
    ElevatorRequest,
> {
    if s.contains(r) {
        s.remove(s.index_of(r))
    } else {
        s
    }
}

/// The pending requests after the car has stopped at `current_floor`
/// headed `direction`: the stop serves the call `{direction,
/// current_floor}` or, failing that, the call in the opposite direction
/// at the same floor.
pub open spec fn remove_finished_seq(
    s: Seq<ElevatorRequest>,
    direction: ElevatorDirection,
    current_floor: i8,
) -> Seq<ElevatorRequest> {
    let same = ElevatorRequest { direction, floor: current_floor };
    let opposite = ElevatorRequest {
        direction: direction.spec_opposite(),
        floor: current_floor,
    };
    if s.contains(same) {
        remove_request_seq(s, same)
    } else if s.contains(opposite) {
        remove_request_seq(s, opposite)
    } else {
        s
    }
}

/// Whether `r` can be served without leaving the sweep: it matches the
/// direction of travel and lies at the current floor or between it and
/// the target; once the target is reached (`is_at_target`), any matching
/// request beyond the current floor qualifies.
pub open spec fn on_the_way_candidate(
    r: ElevatorRequest,
    direction: ElevatorDirection,
    current_floor: i8,
    target_floor: i8,
    is_at_target: bool,
) -> bool {
    &&& r.direction == direction
    &&& {
        ||| r.floor == current_floor
        ||| (current_floor < r.floor && direction is UP && (is_at_target || r.floor
            <= target_floor))
        ||| (current_floor > r.floor && direction is DOWN && (is_at_target || r.floor
            >= target_floor))
    }
}

/// `r` is an on-the-way candidate at minimum distance from the current
/// floor among all pending candidates.
pub open spec fn is_on_the_way_choice(
    s: Seq<ElevatorRequest>,
    direction: ElevatorDirection,
    current_floor: i8,
    target_floor: i8,
    is_at_target: bool,
    r: ElevatorRequest,
) -> bool {
    &&& s.contains(r)
    &&& on_the_way_candidate(r, direction, current_floor, target_floor, is_at_target)
    &&& forall|q: ElevatorRequest|
        s.contains(q) && on_the_way_candidate(q, direction, current_floor, target_floor, is_at_target)
            ==> floor_distance(current_floor as int, r.floor as int) <= floor_distance(
            current_floor as int,
            q.floor as int,
        )
}

/// No pending request is an on-the-way candidate.
pub open spec fn no_on_the_way_candidate(
    s: Seq<ElevatorRequest>,
    direction: ElevatorDirection,
    current_floor: i8,
    target_floor: i8,
    is_at_target: bool,
) -> bool {
    forall|q: ElevatorRequest|
        s.contains(q) ==> !on_the_way_candidate(
            q,
            direction,
            current_floor,
            target_floor,
            is_at_target,
        )
}

/// `r` is the extreme pending request in `direction`: the lowest floor
/// for UP, the highest for DOWN — the end the sweep starts from.
pub open spec fn is_first_in_direction_choice(
    s: Seq<ElevatorRequest>,
    direction: ElevatorDirection,
    r: ElevatorRequest,
) -> bool {
    &&& s.contains(r)
    &&& r.direction == direction
    &&& forall|q: ElevatorRequest|
        s.contains(q) && q.direction == direction ==> match direction {
            ElevatorDirection::UP => r.floor <= q.floor,
            ElevatorDirection::DOWN => r.floor >= q.floor,
        }
}

/// No pending request travels in `direction`.
pub open spec fn no_request_in_direction(
    s: Seq<ElevatorRequest>,
    direction: ElevatorDirection,
) -> bool {
    forall|q: ElevatorRequest| s.contains(q) ==> q.direction != direction
}

/// Whether `r` is a turn-around candidate while travelling `direction`:
/// it asks for the opposite direction and still lies ahead of the car
/// (at or above the current floor when going UP, at or below when going
/// DOWN).
pub open spec fn opposite_candidate(
    r: ElevatorRequest,
    direction: ElevatorDirection,
    current_floor: i8,
) -> bool {
    &&& r.direction == direction.spec_opposite()
    &&& match direction {
        ElevatorDirection::UP => r.floor >= current_floor,
        ElevatorDirection::DOWN => r.floor <= current_floor,
    }
}

/// `r` is the furthest turn-around candidate: the highest qualifying
/// floor when going UP, the lowest when going DOWN.
pub open spec fn is_opposite_choice(
    s: Seq<ElevatorRequest>,
    direction: ElevatorDirection,
    current_floor: i8,
    r: ElevatorRequest,
) -> bool {
    &&& s.contains(r)
    &&& opposite_candidate(r, direction, current_floor)
    &&& forall|q: ElevatorRequest|
        s.contains(q) && opposite_candidate(q, direction, current_floor) ==> match direction {
            ElevatorDirection::UP => q.floor <= r.floor,
            ElevatorDirection::DOWN => q.floor >= r.floor,
        }
}

/// No pending request is a turn-around candidate.
pub open spec fn no_opposite_candidate(
    s: Seq<ElevatorRequest>,
    direction: ElevatorDirection,
    current_floor: i8,
) -> bool {
    forall|q: ElevatorRequest| s.contains(q) ==> !opposite_candidate(q, direction, current_floor)
}

/// The idle policy: the first UP request, else the first DOWN request.
pub open spec fn is_idle_choice(s: Seq<ElevatorRequest>, r: ElevatorRequest) -> bool {
    ||| is_first_in_direction_choice(s, ElevatorDirection::UP, r)
    ||| (no_request_in_direction(s, ElevatorDirection::UP) && is_first_in_direction_choice(
        s,
        ElevatorDirection::DOWN,
        r,
    ))
}

/// The idle policy finds nothing: no request is pending at all.
pub open spec fn no_idle_choice(s: Seq<ElevatorRequest>) -> bool {
    &&& no_request_in_direction(s, ElevatorDirection::UP)
    &&& no_request_in_direction(s, ElevatorDirection::DOWN)
}

/// The moving policy: the nearest on-the-way request, else the furthest
/// turn-around request.
pub open spec fn is_moving_choice(
    s: Seq<ElevatorRequest>,
    direction: ElevatorDirection,
    current_floor: i8,
    target_floor: i8,
    r: ElevatorRequest,
) -> bool {
    ||| is_on_the_way_choice(s, direction, current_floor, target_floor, false, r)
    ||| (no_on_the_way_candidate(s, direction, current_floor, target_floor, false)
        && is_opposite_choice(s, direction, current_floor, r))
}

/// The moving policy finds nothing — the internal-consistency fault.
pub open spec fn no_moving_choice(
    s: Seq<ElevatorRequest>,
    direction: ElevatorDirection,
    current_floor: i8,
    target_floor: i8,
) -> bool {
    &&& no_on_the_way_candidate(s, direction, current_floor, target_floor, false)
    &&& no_opposite_candidate(s, direction, current_floor)
}

/// The post-wait policy: continue the sweep (any matching request beyond
/// the current floor), else start the opposite sweep, else restart the
/// same-direction sweep.
pub open spec fn is_post_wait_choice(
    s: Seq<ElevatorRequest>,
    direction: ElevatorDirection,
    current_floor: i8,
    target_floor: i8,
    r: ElevatorRequest,
) -> bool {
    ||| is_on_the_way_choice(s, direction, current_floor, target_floor, true, r)
    ||| (no_on_the_way_candidate(s, direction, current_floor, target_floor, true)
        && is_first_in_direction_choice(s, direction.spec_opposite(), r))
    ||| (no_on_the_way_candidate(s, direction, current_floor, target_floor, true)
        && no_request_in_direction(s, direction.spec_opposite())
        && is_first_in_direction_choice(s, direction, r))
}

/// The post-wait policy finds nothing: the car goes idle.
pub open spec fn no_post_wait_choice(
    s: Seq<ElevatorRequest>,
    direction: ElevatorDirection,
    current_floor: i8,
    target_floor: i8,
) -> bool {
    &&& no_on_the_way_candidate(s, direction, current_floor, target_floor, true)
    &&& no_request_in_direction(s, direction.spec_opposite())
    &&& no_request_in_direction(s, direction)
}

/// One tick from IDLE committing to request `r`: the target is set to
/// `r`'s floor; a request at the current floor is served on the spot
/// (the car starts waiting and `r` leaves the set), any other starts
/// the car moving toward it.
pub open spec fn idle_step_with(
    pre: ElevatorModel,
    r: ElevatorRequest,
    post: ElevatorModel,
) -> bool {
    &&& post.current_floor == pre.current_floor
    &&& post.target_floor == r.floor
    &&& post.waiting_time_ms == pre.waiting_time_ms
    &&& if r.floor == pre.current_floor {
        &&& post.state == ElevatorState::WAITING(r.direction, ElevatorDoorsState::CLOSED)
        &&& post.requests == remove_request_seq(pre.requests, r)
    } else {
        &&& post.state == ElevatorState::MOVING(r.spec_recalculate_direction(pre.current_floor))
        &&& post.requests == pre.requests
    }
}

/// One tick from IDLE: a no-op without pending requests, otherwise the
/// idle policy's choice is committed to.
pub open spec fn idle_step(pre: ElevatorModel, post: ElevatorModel) -> bool {
    if no_idle_choice(pre.requests) {
        post == pre
    } else {
        exists|r: ElevatorRequest|
            #[trigger] is_idle_choice(pre.requests, r) && idle_step_with(pre, r, post)
    }
}

/// The pending requests after the tick that enters a wait has served
/// its stop: on that tick (timer still zero) the stop's call is removed,
/// on every later tick the set is untouched.
pub open spec fn waited_requests(
    pre: ElevatorModel,
    direction: ElevatorDirection,
) -> Seq<ElevatorRequest> {
    if pre.waiting_time_ms == 0 {
        remove_finished_seq(pre.requests, direction, pre.current_floor)
    } else {
        pre.requests
    }
}

/// Where the dwell's expiry sends the car: the post-wait policy's choice
/// starts it moving, and with nothing pending in `s1` it goes idle.
pub open spec fn post_wait_transition(
    s1: Seq<ElevatorRequest>,
    direction: ElevatorDirection,
    pre: ElevatorModel,
    post: ElevatorModel,
) -> bool {
    if exists|r: ElevatorRequest|
        #[trigger] is_post_wait_choice(s1, direction, pre.current_floor, pre.target_floor, r) {
        exists|r: ElevatorRequest|
            {
                &&& #[trigger] is_post_wait_choice(
                    s1,
                    direction,
                    pre.current_floor,
                    pre.target_floor,
                    r,
                )
                &&& post.target_floor == r.floor
                &&& post.state == ElevatorState::MOVING(
                    r.spec_recalculate_direction(pre.current_floor),
                )
            }
    } else {
        &&& post.target_floor == pre.target_floor
        &&& post.state == ElevatorState::IDLE
    }
}

/// One tick from WAITING(direction, doors), advancing the dwell timer by
/// `dt_ms`. On the tick that enters the wait (timer still zero) the stop
/// serves its request. While the accumulated time stays under the dwell
/// duration nothing else changes; once it reaches it, the timer resets
/// and the post-wait policy either starts the car moving or sends it
/// idle.
pub open spec fn waiting_step(
    pre: ElevatorModel,
    direction: ElevatorDirection,
    dt_ms: u64,
    post: ElevatorModel,
) -> bool {
    let s1 = waited_requests(pre, direction);
    let w1 = pre.waiting_time_ms + dt_ms;
    &&& post.current_floor == pre.current_floor
    &&& post.requests == s1
    &&& if w1 >= WAITING_DURATION_MS {
        &&& post.waiting_time_ms == 0
        &&& post_wait_transition(s1, direction, pre, post)
    } else {
        &&& post.waiting_time_ms == w1
        &&& post.target_floor == pre.target_floor
        &&& post.state == pre.state
    }
}

/// One tick from MOVING(direction): the moving policy retargets the car,
/// or — when no pending request explains the movement — the fault is
/// reported and nothing changes.
pub open spec fn moving_step(
    pre: ElevatorModel,
    direction: ElevatorDirection,
    post: ElevatorModel,
    res: Result<(), ElevatorFault>,
) -> bool {
    if exists|r: ElevatorRequest|
        #[trigger] is_moving_choice(pre.requests, direction, pre.current_floor, pre.target_floor, r) {
        &&& res == Ok::<(), ElevatorFault>(())
        &&& exists|r: ElevatorRequest|
            {
                &&& #[trigger] is_moving_choice(
                    pre.requests,
                    direction,
                    pre.current_floor,
                    pre.target_floor,
                    r,
                )
                &&& post.target_floor == r.floor
            }
        &&& post.current_floor == pre.current_floor
        &&& post.state == pre.state
        &&& post.requests == pre.requests
        &&& post.waiting_time_ms == pre.waiting_time_ms
    } else {
        &&& res == Err::<(), ElevatorFault>(ElevatorFault::MissingMovingRequest)
        &&& post == pre
    }
}

/// The per-tick transition relation of the dispatch engine, dispatching
/// on the car state.
pub open spec fn state_loop_rel(
    pre: ElevatorModel,
    dt_ms: u64,
    post: ElevatorModel,
    res: Result<(), ElevatorFault>,
) -> bool {
    match pre.state {
        ElevatorState::IDLE => res == Ok::<(), ElevatorFault>(()) && idle_step(pre, post),
        ElevatorState::WAITING(direction, _) => res == Ok::<(), ElevatorFault>(())
            && waiting_step(pre, direction, dt_ms, post),
        ElevatorState::MOVING(direction) => moving_step(pre, direction, post, res),
    }
}

/// Removing any one position keeps a duplicate-free sequence
/// duplicate-free.
pub proof fn lemma_remove_keeps_unique(s: Seq<ElevatorRequest>, i: int)
    requires
        unique_requests(s),
        0 <= i < s.len(),
    ensures
        unique_requests(s.remove(i)),
{
    let t = s.remove(i);
    assert forall|a: int, b: int| 0 <= a < b < t.len() implies t[a] != t[b] by {
        if a < i {
            if b < i {
                assert(t[a] == s[a] && t[b] == s[b]);
            } else {
                assert(t[a] == s[a] && t[b] == s[b + 1]);
            }
        } else {
            assert(t[a] == s[a + 1] && t[b] == s[b + 1]);
        }
    }
}

} // verus!
