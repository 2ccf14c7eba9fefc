//! Laws of the dispatch engine, proved against the transition relation
//! and the call-level specifications in [`crate::policy`].

use crate::direction::ElevatorDirection;
use crate::direction::ElevatorDoorsState;
use crate::policy::ElevatorModel;
use crate::policy::WAITING_DURATION_MS;
use crate::policy::floor_distance;
use crate::policy::idle_step_with;
use crate::policy::insert_request_seq;
use crate::policy::is_first_in_direction_choice;
use crate::policy::is_idle_choice;
use crate::policy::is_moving_choice;
use crate::policy::is_on_the_way_choice;
use crate::policy::is_post_wait_choice;
use crate::policy::no_idle_choice;
use crate::policy::no_on_the_way_candidate;
use crate::policy::no_request_in_direction;
use crate::policy::on_the_way_candidate;
use crate::policy::remove_request_seq;
use crate::policy::state_loop_rel;
use crate::policy::waited_requests;
use crate::request::ElevatorFault;
use crate::request::ElevatorRequest;
use crate::request::ElevatorState;
use vstd::prelude::*;

verus! {

/// The on-the-way policy is deterministic: any two choices are the same
/// request.
pub proof fn lemma_on_the_way_choice_unique(
    s: Seq<ElevatorRequest>,
    direction: ElevatorDirection,
    current_floor: i8,
    target_floor: i8,
    is_at_target: bool,
    r1: ElevatorRequest,
    r2: ElevatorRequest,
)
    requires
        is_on_the_way_choice(s, direction, current_floor, target_floor, is_at_target, r1),
        is_on_the_way_choice(s, direction, current_floor, target_floor, is_at_target, r2),
    ensures
        r1 == r2,
{
    assert(floor_distance(current_floor as int, r1.floor as int) == floor_distance(
        current_floor as int,
        r2.floor as int,
    ));
}

/// The first-in-direction policy is deterministic.
pub proof fn lemma_first_in_direction_choice_unique(
    s: Seq<ElevatorRequest>,
    direction: ElevatorDirection,
    r1: ElevatorRequest,
    r2: ElevatorRequest,
)
    requires
        is_first_in_direction_choice(s, direction, r1),
        is_first_in_direction_choice(s, direction, r2),
    ensures
        r1 == r2,
{
    assert(r1.floor == r2.floor);
}

/// Duplicate rejection: a request not yet pending is accepted, an
/// immediate repetition finds it pending (and is therefore rejected as
/// a duplicate, leaving the set as it is), and the pair of calls grows
/// the set by exactly one.
pub proof fn lemma_duplicate_rejection(s: Seq<ElevatorRequest>, r: ElevatorRequest)
    requires
        !s.contains(r),
    ensures
        insert_request_seq(s, r).contains(r),
        insert_request_seq(insert_request_seq(s, r), r) == insert_request_seq(s, r),
        insert_request_seq(s, r).len() == s.len() + 1,
{
    assert(s.push(r)[s.len() as int] == r);
}

/// Idle directional bias, upward case: from IDLE with only UP requests
/// pending, all above the car, one tick starts the car moving up.
pub proof fn lemma_idle_bias_up(
    pre: ElevatorModel,
    dt_ms: u64,
    post: ElevatorModel,
    res: Result<(), ElevatorFault>,
)
    requires
        state_loop_rel(pre, dt_ms, post, res),
        pre.state is IDLE,
        pre.requests.len() > 0,
        forall|q: ElevatorRequest|
            pre.requests.contains(q) ==> q.direction is UP && q.floor > pre.current_floor,
    ensures
        post.state == ElevatorState::MOVING(ElevatorDirection::UP),
{
    assert(pre.requests.contains(pre.requests[0]));
    assert(!no_idle_choice(pre.requests));
    let r = choose|r: ElevatorRequest|
        #[trigger] is_idle_choice(pre.requests, r) && idle_step_with(pre, r, post);
    assert(pre.requests.contains(r));
}

/// Idle directional bias, downward case: from IDLE with only DOWN
/// requests pending, all below the car, one tick starts the car moving
/// down.
pub proof fn lemma_idle_bias_down(
    pre: ElevatorModel,
    dt_ms: u64,
    post: ElevatorModel,
    res: Result<(), ElevatorFault>,
)
    requires
        state_loop_rel(pre, dt_ms, post, res),
        pre.state is IDLE,
        pre.requests.len() > 0,
        forall|q: ElevatorRequest|
            pre.requests.contains(q) ==> q.direction is DOWN && q.floor < pre.current_floor,
    ensures
        post.state == ElevatorState::MOVING(ElevatorDirection::DOWN),
{
    assert(pre.requests.contains(pre.requests[0]));
    assert(!no_idle_choice(pre.requests));
    let r = choose|r: ElevatorRequest|
        #[trigger] is_idle_choice(pre.requests, r) && idle_step_with(pre, r, post);
    assert(pre.requests.contains(r));
}

/// Idle directional bias, mixed case: from IDLE, as long as any UP
/// request is pending the tick commits to the first UP request — DOWN
/// requests wait their turn.
pub proof fn lemma_idle_bias_up_first(
    pre: ElevatorModel,
    dt_ms: u64,
    post: ElevatorModel,
    res: Result<(), ElevatorFault>,
    up: ElevatorRequest,
)
    requires
        state_loop_rel(pre, dt_ms, post, res),
        pre.state is IDLE,
        pre.requests.contains(up),
        up.direction is UP,
    ensures
        exists|r: ElevatorRequest|
            #[trigger] is_first_in_direction_choice(pre.requests, ElevatorDirection::UP, r)
                && post.target_floor == r.floor,
{
    assert(!no_idle_choice(pre.requests));
    let r = choose|r: ElevatorRequest|
        #[trigger] is_idle_choice(pre.requests, r) && idle_step_with(pre, r, post);
    assert(is_first_in_direction_choice(pre.requests, ElevatorDirection::UP, r));
}

/// Immediate-floor request: from IDLE with a single pending request at
/// the car's own floor, one tick serves it on the spot — the car starts
/// waiting in the request's direction, with no moving phase, and the
/// request leaves the set.
pub proof fn lemma_immediate_floor_request(
    pre: ElevatorModel,
    dt_ms: u64,
    post: ElevatorModel,
    res: Result<(), ElevatorFault>,
    r: ElevatorRequest,
)
    requires
        state_loop_rel(pre, dt_ms, post, res),
        pre.state is IDLE,
        pre.requests == seq![r],
        r.floor == pre.current_floor,
    ensures
        post.state == ElevatorState::WAITING(r.direction, ElevatorDoorsState::CLOSED),
        post.requests.len() == 0,
        post.target_floor == pre.current_floor,
{
    assert(pre.requests[0] == r);
    assert(pre.requests.contains(r));
    assert(!no_idle_choice(pre.requests));
    let c = choose|c: ElevatorRequest|
        #[trigger] is_idle_choice(pre.requests, c) && idle_step_with(pre, c, post);
    assert(pre.requests.contains(c));
    assert(c == r);
    assert(post.requests == remove_request_seq(pre.requests, r));
    let i = pre.requests.index_of(r);
    assert(i == 0);
}

/// En-route pickup: while the car is moving, the tick retargets it to
/// the nearest request it can serve without leaving its sweep —
/// whenever such a request exists, it becomes the target, and the rest
/// of the state is untouched.
pub proof fn lemma_en_route_pickup(
    pre: ElevatorModel,
    dt_ms: u64,
    post: ElevatorModel,
    res: Result<(), ElevatorFault>,
    direction: ElevatorDirection,
    r: ElevatorRequest,
)
    requires
        state_loop_rel(pre, dt_ms, post, res),
        pre.state == ElevatorState::MOVING(direction),
        is_on_the_way_choice(
            pre.requests,
            direction,
            pre.current_floor,
            pre.target_floor,
            false,
            r,
        ),
    ensures
        res == Ok::<(), ElevatorFault>(()),
        post.state == pre.state,
        post.requests == pre.requests,
        post.current_floor == pre.current_floor,
        post.target_floor == r.floor,
{
    assert(is_moving_choice(pre.requests, direction, pre.current_floor, pre.target_floor, r));
    let c = choose|c: ElevatorRequest|
        #[trigger] is_moving_choice(pre.requests, direction, pre.current_floor, pre.target_floor, c)
            && post.target_floor == c.floor;
    assert(pre.requests.contains(r) && on_the_way_candidate(
        r,
        direction,
        pre.current_floor,
        pre.target_floor,
        false,
    ));
    assert(is_on_the_way_choice(
        pre.requests,
        direction,
        pre.current_floor,
        pre.target_floor,
        false,
        c,
    ));
    lemma_on_the_way_choice_unique(
        pre.requests,
        direction,
        pre.current_floor,
        pre.target_floor,
        false,
        r,
        c,
    );
}

/// Dwell duration, holding case: while the accumulated wait stays under
/// the dwell duration, a tick leaves the car waiting exactly as it was,
/// with the timer advanced by the tick.
pub proof fn lemma_dwell_holds(
    pre: ElevatorModel,
    dt_ms: u64,
    post: ElevatorModel,
    res: Result<(), ElevatorFault>,
)
    requires
        state_loop_rel(pre, dt_ms, post, res),
        pre.state is WAITING,
        pre.waiting_time_ms + dt_ms < WAITING_DURATION_MS,
    ensures
        post.state == pre.state,
        post.waiting_time_ms == pre.waiting_time_ms + dt_ms,
        post.current_floor == pre.current_floor,
        post.target_floor == pre.target_floor,
{
}

/// Dwell duration, expiry case: once the accumulated wait reaches the
/// dwell duration, the tick leaves the waiting state — the car moves on
/// or goes idle — and the timer resets.
pub proof fn lemma_dwell_expires(
    pre: ElevatorModel,
    dt_ms: u64,
    post: ElevatorModel,
    res: Result<(), ElevatorFault>,
)
    requires
        state_loop_rel(pre, dt_ms, post, res),
        pre.state is WAITING,
        pre.waiting_time_ms + dt_ms >= WAITING_DURATION_MS,
    ensures
        !(post.state is WAITING),
        post.waiting_time_ms == 0,
        post.state is MOVING || post.state is IDLE,
{
}

/// Turn-around: when the dwell after a downward stop expires with no
/// downward request left at or below the car, and some UP request is
/// pending, the car turns around to the first UP request — however far
/// a remaining DOWN request above may be.
pub proof fn lemma_turn_around(
    pre: ElevatorModel,
    dt_ms: u64,
    post: ElevatorModel,
    res: Result<(), ElevatorFault>,
    doors: ElevatorDoorsState,
    up: ElevatorRequest,
)
    requires
        state_loop_rel(pre, dt_ms, post, res),
        pre.state == ElevatorState::WAITING(ElevatorDirection::DOWN, doors),
        pre.waiting_time_ms + dt_ms >= WAITING_DURATION_MS,
        is_first_in_direction_choice(
            waited_requests(pre, ElevatorDirection::DOWN),
            ElevatorDirection::UP,
            up,
        ),
        no_on_the_way_candidate(
            waited_requests(pre, ElevatorDirection::DOWN),
            ElevatorDirection::DOWN,
            pre.current_floor,
            pre.target_floor,
            true,
        ),
    ensures
        post.target_floor == up.floor,
        post.state == ElevatorState::MOVING(
            up.spec_recalculate_direction(pre.current_floor),
        ),
{
    let s1 = waited_requests(pre, ElevatorDirection::DOWN);
    assert(is_post_wait_choice(s1, ElevatorDirection::DOWN, pre.current_floor, pre.target_floor, up));
    let c = choose|c: ElevatorRequest|
        #[trigger] is_post_wait_choice(s1, ElevatorDirection::DOWN, pre.current_floor, pre.target_floor, c)
            && post.target_floor == c.floor && post.state == ElevatorState::MOVING(
            c.spec_recalculate_direction(pre.current_floor),
        );
    assert(s1.contains(up));
    assert(!no_request_in_direction(s1, ElevatorDirection::UP));
    assert(is_first_in_direction_choice(s1, ElevatorDirection::UP, c));
    lemma_first_in_direction_choice_unique(s1, ElevatorDirection::UP, up, c);
}

} // verus!
