//! The dispatch engine: the `Elevator` aggregate and its operations.

use crate::direction::ElevatorDirection;
use crate::direction::ElevatorDoorsState;
use crate::policy::ElevatorModel;
use crate::policy::WAITING_DURATION_MS;
use crate::policy::car_call_direction;
use crate::policy::floor_distance;
use crate::policy::initial_model;
use crate::policy::insert_request_seq;
use crate::policy::is_first_in_direction_choice;
use crate::policy::is_idle_choice;
use crate::policy::is_moving_choice;
use crate::policy::is_on_the_way_choice;
use crate::policy::is_opposite_choice;
use crate::policy::is_post_wait_choice;
use crate::policy::lemma_remove_keeps_unique;
use crate::policy::no_idle_choice;
use crate::policy::no_moving_choice;
use crate::policy::no_on_the_way_candidate;
use crate::policy::no_opposite_candidate;
use crate::policy::no_post_wait_choice;
use crate::policy::no_request_in_direction;
use crate::policy::on_the_way_candidate;
use crate::policy::opposite_candidate;
use crate::policy::remove_finished_seq;
use crate::policy::remove_request_seq;
use crate::policy::post_wait_transition;
use crate::policy::state_loop_rel;
use crate::policy::waited_requests;
use crate::policy::waiting_step;
use crate::request::ElevatorFault;
use crate::request::ElevatorFloorReachErr;
use crate::request::ElevatorRequest;
use crate::request::ElevatorRequestErr;
use crate::request::ElevatorState;
use vstd::prelude::*;

verus! {

/// A single elevator car's dispatch state: where it is, where it is
/// going, what it is doing, what is still asked of it, and how long it
/// has dwelt at the current stop.
pub struct Elevator {
    current_floor: i8,
    target_floor: i8,
    state: ElevatorState,
    request_buffer: Vec<ElevatorRequest>,
    waiting_time_ms: u64,
}

impl View for Elevator {
    type V = ElevatorModel;

    closed spec fn view(&self) -> ElevatorModel {
        ElevatorModel {
            current_floor: self.current_floor,
            target_floor: self.target_floor,
            state: self.state,
            requests: self.request_buffer@,
            waiting_time_ms: self.waiting_time_ms,
        }
    }
}

impl Default for Elevator {
    /// A fresh engine, identical to [`Elevator::new`].
    fn default() -> (e: Elevator)
        ensures
            e.wf(),
            e@ == initial_model(),
    {
        Elevator::new()
    }
}

impl Elevator {
    /// The engine's invariant, carried by every operation.
    pub open spec fn wf(&self) -> bool {
        self@.wf()
    }

    /// A fresh engine: at floor 0, idle, with no pending requests.
    pub fn new() -> (e: Elevator)
        ensures
            e.wf(),
            e@ == initial_model(),
    {
        let e = Elevator {
            current_floor: 0,
            target_floor: 0,
            state: ElevatorState::IDLE,
            request_buffer: Vec::new(),
            waiting_time_ms: 0,
        };
        proof {
            assert(e@ =~= initial_model());
        }
        e
    }

    /// Finds the position of `request` among the pending requests.
    fn find_request_index(
        buffer: &Vec<ElevatorRequest>,
        request: &ElevatorRequest,
    ) -> (res: Option<usize>)
        ensures
            match res {
                Some(i) => i < buffer@.len() && buffer@[i as int] == *request,
                None => !buffer@.contains(*request),
            },
    {
        let mut i: usize = 0;
        while i < buffer.len()
            invariant
                i <= buffer@.len(),
                forall|j: int| 0 <= j < i ==> buffer@[j] != *request,
            decreases buffer@.len() - i,
        {
            if buffer[i] == *request {
                return Some(i);
            }
            i += 1;
        }
        None
    }

    /// Accepts a hall call: inserts the request unless an identical one
    /// is already pending, which is rejected as a duplicate and leaves
    /// the engine untouched.
    pub fn hall_call(&mut self, request: ElevatorRequest) -> (res: Result<
        bool,
        ElevatorRequestErr,
    >)
        requires
            old(self).wf(),
        ensures
            final(self).wf(),
            final(self)@.requests == insert_request_seq(old(self)@.requests, request),
            final(self)@.current_floor == old(self)@.current_floor,
            final(self)@.target_floor == old(self)@.target_floor,
            final(self)@.state == old(self)@.state,
            final(self)@.waiting_time_ms == old(self)@.waiting_time_ms,
            res == if old(self)@.requests.contains(request) {
                Err::<bool, ElevatorRequestErr>(ElevatorRequestErr::DUPLICATE)
            } else {
                Ok::<bool, ElevatorRequestErr>(true)
            },
    {
        match Self::find_request_index(&self.request_buffer, &request) {
            Some(_) => Err(ElevatorRequestErr::DUPLICATE),
            None => {
                self.request_buffer.push(request);
                Ok(true)
            },
        }
    }

    /// Accepts a car call: derives the travel direction from the named
    /// floor, rejects a call to the current floor outright, and otherwise
    /// behaves exactly like a hall call with the derived direction.
    pub fn car_call(&mut self, floor: i8) -> (res: Result<bool, ElevatorRequestErr>)
        requires
            old(self).wf(),
        ensures
            final(self).wf(),
            final(self)@.current_floor == old(self)@.current_floor,
            final(self)@.target_floor == old(self)@.target_floor,
            final(self)@.state == old(self)@.state,
            final(self)@.waiting_time_ms == old(self)@.waiting_time_ms,
            floor == old(self)@.current_floor ==> {
                &&& res == Err::<bool, ElevatorRequestErr>(ElevatorRequestErr::CurrentFloor)
                &&& final(self)@ == old(self)@
            },
            floor != old(self)@.current_floor ==> {
                let request = ElevatorRequest {
                    direction: car_call_direction(old(self)@.current_floor, floor),
                    floor,
                };
                &&& final(self)@.requests == insert_request_seq(old(self)@.requests, request)
                &&& res == if old(self)@.requests.contains(request) {
                    Err::<bool, ElevatorRequestErr>(ElevatorRequestErr::DUPLICATE)
                } else {
                    Ok::<bool, ElevatorRequestErr>(true)
                }
            },
    {
        if floor == self.current_floor {
            return Err(ElevatorRequestErr::CurrentFloor);
        }
        let direction = if self.current_floor < floor {
            ElevatorDirection::UP
        } else {
            ElevatorDirection::DOWN
        };
        let request = ElevatorRequest { direction, floor };
        match Self::find_request_index(&self.request_buffer, &request) {
            Some(_) => Err(ElevatorRequestErr::DUPLICATE),
            None => {
                self.request_buffer.push(request);
                Ok(true)
            },
        }
    }

    /// Overrides the car's current floor; the rest of the state is
    /// untouched.
    pub fn set_current_floor(&mut self, floor: i8)
        requires
            old(self).wf(),
        ensures
            final(self).wf(),
            final(self)@.current_floor == floor,
            final(self)@.target_floor == old(self)@.target_floor,
            final(self)@.state == old(self)@.state,
            final(self)@.requests == old(self)@.requests,
            final(self)@.waiting_time_ms == old(self)@.waiting_time_ms,
    {
        self.current_floor = floor;
    }

    /// The floor the car is committed to reach.
    pub fn get_target_floor(&self) -> (floor: i8)
        ensures
            floor == self@.target_floor,
    {
        self.target_floor
    }

    /// The floor the car last stood at or reported.
    pub fn get_current_floor(&self) -> (floor: i8)
        ensures
            floor == self@.current_floor,
    {
        self.current_floor
    }

    /// What the car is doing.
    pub fn get_state(&self) -> (state: &ElevatorState)
        ensures
            *state == self@.state,
    {
        &self.state
    }

    /// How long the car has dwelt at the current stop, in milliseconds.
    pub fn get_waiting_time_ms(&self) -> (t: u64)
        ensures
            t == self@.waiting_time_ms,
    {
        self.waiting_time_ms
    }

    /// The pending requests, in insertion order.
    pub fn get_all_requests(&self) -> (requests: Vec<ElevatorRequest>)
        ensures
            requests@ == self@.requests,
    {
        let requests = self.request_buffer.clone();
        proof {
            assert(requests@ =~= self.request_buffer@);
        }
        requests
    }

    /// The absolute distance between two floors, wide enough that no
    /// pair of floors overflows it.
    fn exec_floor_distance(a: i8, b: i8) -> (d: i16)
        ensures
            d == floor_distance(a as int, b as int),
    {
        let wide_a = a as i16;
        let wide_b = b as i16;
        if wide_a >= wide_b {
            wide_a - wide_b
        } else {
            wide_b - wide_a
        }
    }

    /// Whether `r` can be served without leaving the current sweep
    /// (see [`on_the_way_candidate`]).
    fn is_on_the_way(
        &self,
        r: &ElevatorRequest,
        direction: ElevatorDirection,
        is_at_target: bool,
    ) -> (c: bool)
        ensures
            c == on_the_way_candidate(
                *r,
                direction,
                self@.current_floor,
                self@.target_floor,
                is_at_target,
            ),
    {
        r.direction == direction && (r.floor == self.current_floor || (self.current_floor < r.floor
            && direction == ElevatorDirection::UP && (is_at_target || r.floor <= self.target_floor))
            || (self.current_floor > r.floor && direction == ElevatorDirection::DOWN && (
            is_at_target || r.floor >= self.target_floor)))
    }

    /// The nearest pending request that the car can serve without
    /// leaving its sweep, if any.
    fn get_target_on_the_way(
        &self,
        direction: ElevatorDirection,
        is_at_target: bool,
    ) -> (res: Option<ElevatorRequest>)
        ensures
            match res {
                Some(r) => is_on_the_way_choice(
                    self@.requests,
                    direction,
                    self@.current_floor,
                    self@.target_floor,
                    is_at_target,
                    r,
                ),
                None => no_on_the_way_candidate(
                    self@.requests,
                    direction,
                    self@.current_floor,
                    self@.target_floor,
                    is_at_target,
                ),
            },
    {
        let ghost s = self.request_buffer@;
        let mut best: Option<ElevatorRequest> = None;
        let mut i: usize = 0;
        while i < self.request_buffer.len()
            invariant
                i <= s.len(),
                s == self.request_buffer@,
                match best {
                    Some(b) => {
                        &&& exists|j: int| 0 <= j < i && s[j] == b
                        &&& on_the_way_candidate(
                            b,
                            direction,
                            self@.current_floor,
                            self@.target_floor,
                            is_at_target,
                        )
                        &&& forall|j: int|
                            0 <= j < i && on_the_way_candidate(
                                #[trigger] s[j],
                                direction,
                                self@.current_floor,
                                self@.target_floor,
                                is_at_target,
                            ) ==> floor_distance(self@.current_floor as int, b.floor as int)
                                <= floor_distance(self@.current_floor as int, s[j].floor as int)
                    },
                    None => forall|j: int|
                        0 <= j < i ==> !on_the_way_candidate(
                            #[trigger] s[j],
                            direction,
                            self@.current_floor,
                            self@.target_floor,
                            is_at_target,
                        ),
                },
            decreases s.len() - i,
        {
            let r = self.request_buffer[i];
            if self.is_on_the_way(&r, direction, is_at_target) {
                match best {
                    None => {
                        best = Some(r);
                    },
                    Some(b) => {
                        if Self::exec_floor_distance(self.current_floor, r.floor)
                            < Self::exec_floor_distance(self.current_floor, b.floor) {
                            best = Some(r);
                        }
                    },
                }
            }
            i += 1;
        }
        proof {
            match best {
                Some(b) => {
                    assert forall|q: ElevatorRequest|
                        s.contains(q) && on_the_way_candidate(
                            q,
                            direction,
                            self@.current_floor,
                            self@.target_floor,
                            is_at_target,
                        ) implies floor_distance(self@.current_floor as int, b.floor as int)
                        <= floor_distance(self@.current_floor as int, q.floor as int) by {
                        let j = choose|j: int| 0 <= j < s.len() && s[j] == q;
                        assert(on_the_way_candidate(
                            s[j],
                            direction,
                            self@.current_floor,
                            self@.target_floor,
                            is_at_target,
                        ));
                    }
                },
                None => {
                    assert forall|q: ElevatorRequest| s.contains(q) implies !on_the_way_candidate(
                        q,
                        direction,
                        self@.current_floor,
                        self@.target_floor,
                        is_at_target,
                    ) by {
                        let j = choose|j: int| 0 <= j < s.len() && s[j] == q;
                        assert(!on_the_way_candidate(
                            s[j],
                            direction,
                            self@.current_floor,
                            self@.target_floor,
                            is_at_target,
                        ));
                    }
                },
            }
        }
        best
    }

    /// The extreme pending request in `direction`: the end of the
    /// building the sweep starts from (lowest floor for UP, highest for
    /// DOWN), if any request travels that way.
    fn get_first_target_in_direction(&self, direction: ElevatorDirection) -> (res: Option<
        ElevatorRequest,
    >)
        ensures
            match res {
                Some(r) => is_first_in_direction_choice(self@.requests, direction, r),
                None => no_request_in_direction(self@.requests, direction),
            },
    {
        let ghost s = self.request_buffer@;
        let mut best: Option<ElevatorRequest> = None;
        let mut i: usize = 0;
        while i < self.request_buffer.len()
            invariant
                i <= s.len(),
                s == self.request_buffer@,
                match best {
                    Some(b) => {
                        &&& exists|j: int| 0 <= j < i && s[j] == b
                        &&& b.direction == direction
                        &&& forall|j: int|
                            0 <= j < i && (#[trigger] s[j]).direction == direction
                                ==> match direction {
                                ElevatorDirection::UP => b.floor <= s[j].floor,
                                ElevatorDirection::DOWN => b.floor >= s[j].floor,
                            }
                    },
                    None => forall|j: int| 0 <= j < i ==> (#[trigger] s[j]).direction != direction,
                },
            decreases s.len() - i,
        {
            let r = self.request_buffer[i];
            if r.direction == direction {
                match best {
                    None => {
                        best = Some(r);
                    },
                    Some(b) => {
                        let better = match direction {
                            ElevatorDirection::UP => r.floor < b.floor,
                            ElevatorDirection::DOWN => r.floor > b.floor,
                        };
                        if better {
                            best = Some(r);
                        }
                    },
                }
            }
            i += 1;
        }
        proof {
            match best {
                Some(b) => {
                    assert forall|q: ElevatorRequest|
                        s.contains(q) && q.direction == direction implies match direction {
                        ElevatorDirection::UP => b.floor <= q.floor,
                        ElevatorDirection::DOWN => b.floor >= q.floor,
                    } by {
                        let j = choose|j: int| 0 <= j < s.len() && s[j] == q;
                        assert(s[j].direction == direction);
                    }
                },
                None => {
                    assert forall|q: ElevatorRequest| s.contains(q) implies q.direction
                        != direction by {
                        let j = choose|j: int| 0 <= j < s.len() && s[j] == q;
                        assert(s[j].direction != direction);
                    }
                },
            }
        }
        best
    }

    /// Whether `r` is a turn-around candidate while the car travels in
    /// `direction` (see [`opposite_candidate`]).
    fn is_opposite_cand(&self, r: &ElevatorRequest, direction: ElevatorDirection) -> (c: bool)
        ensures
            c == opposite_candidate(*r, direction, self@.current_floor),
    {
        r.direction == direction.opposite() && (match direction {
            ElevatorDirection::UP => r.floor >= self.current_floor,
            ElevatorDirection::DOWN => r.floor <= self.current_floor,
        })
    }

    /// The furthest pending request in the opposite direction that is
    /// still ahead of the car — where the sweep turns around, if
    /// anywhere.
    fn get_best_target_with_opposite_direction(&self, direction: ElevatorDirection) -> (res: Option<
        ElevatorRequest,
    >)
        ensures
            match res {
                Some(r) => is_opposite_choice(self@.requests, direction, self@.current_floor, r),
                None => no_opposite_candidate(self@.requests, direction, self@.current_floor),
            },
    {
        let ghost s = self.request_buffer@;
        let mut best: Option<ElevatorRequest> = None;
        let mut i: usize = 0;
        while i < self.request_buffer.len()
            invariant
                i <= s.len(),
                s == self.request_buffer@,
                match best {
                    Some(b) => {
                        &&& exists|j: int| 0 <= j < i && s[j] == b
                        &&& opposite_candidate(b, direction, self@.current_floor)
                        &&& forall|j: int|
                            0 <= j < i && opposite_candidate(
                                #[trigger] s[j],
                                direction,
                                self@.current_floor,
                            ) ==> match direction {
                                ElevatorDirection::UP => s[j].floor <= b.floor,
                                ElevatorDirection::DOWN => s[j].floor >= b.floor,
                            }
                    },
                    None => forall|j: int|
                        0 <= j < i ==> !opposite_candidate(
                            #[trigger] s[j],
                            direction,
                            self@.current_floor,
                        ),
                },
            decreases s.len() - i,
        {
            let r = self.request_buffer[i];
            if self.is_opposite_cand(&r, direction) {
                match best {
                    None => {
                        best = Some(r);
                    },
                    Some(b) => {
                        let better = match direction {
                            ElevatorDirection::UP => r.floor > b.floor,
                            ElevatorDirection::DOWN => r.floor < b.floor,
                        };
                        if better {
                            best = Some(r);
                        }
                    },
                }
            }
            i += 1;
        }
        proof {
            match best {
                Some(b) => {
                    assert forall|q: ElevatorRequest|
                        s.contains(q) && opposite_candidate(
                            q,
                            direction,
                            self@.current_floor,
                        ) implies match direction {
                        ElevatorDirection::UP => q.floor <= b.floor,
                        ElevatorDirection::DOWN => q.floor >= b.floor,
                    } by {
                        let j = choose|j: int| 0 <= j < s.len() && s[j] == q;
                        assert(opposite_candidate(s[j], direction, self@.current_floor));
                    }
                },
                None => {
                    assert forall|q: ElevatorRequest| s.contains(q) implies !opposite_candidate(
                        q,
                        direction,
                        self@.current_floor,
                    ) by {
                        let j = choose|j: int| 0 <= j < s.len() && s[j] == q;
                        assert(!opposite_candidate(s[j], direction, self@.current_floor));
                    }
                },
            }
        }
        best
    }

    /// The idle policy: the first UP request, else the first DOWN
    /// request, else nothing.
    fn get_next_request_on_idle(&self) -> (res: Option<ElevatorRequest>)
        ensures
            match res {
                Some(r) => is_idle_choice(self@.requests, r),
                None => no_idle_choice(self@.requests),
            },
    {
        match self.get_first_target_in_direction(ElevatorDirection::UP) {
            Some(r) => Some(r),
            None => self.get_first_target_in_direction(ElevatorDirection::DOWN),
        }
    }

    /// The moving policy: the nearest on-the-way request, else the
    /// furthest turn-around request, else nothing.
    fn get_next_request_while_moving(&self, direction: ElevatorDirection) -> (res: Option<
        ElevatorRequest,
    >)
        ensures
            match res {
                Some(r) => is_moving_choice(
                    self@.requests,
                    direction,
                    self@.current_floor,
                    self@.target_floor,
                    r,
                ),
                None => no_moving_choice(
                    self@.requests,
                    direction,
                    self@.current_floor,
                    self@.target_floor,
                ),
            },
    {
        match self.get_target_on_the_way(direction, false) {
            Some(r) => Some(r),
            None => self.get_best_target_with_opposite_direction(direction),
        }
    }

    /// The post-wait policy: continue the sweep, else start the opposite
    /// sweep, else restart the same-direction sweep, else nothing.
    fn get_next_request_after_waiting(&self, direction: ElevatorDirection) -> (res: Option<
        ElevatorRequest,
    >)
        ensures
            match res {
                Some(r) => is_post_wait_choice(
                    self@.requests,
                    direction,
                    self@.current_floor,
                    self@.target_floor,
                    r,
                ),
                None => no_post_wait_choice(
                    self@.requests,
                    direction,
                    self@.current_floor,
                    self@.target_floor,
                ),
            },
    {
        match self.get_target_on_the_way(direction, true) {
            Some(r) => Some(r),
            None => match self.get_first_target_in_direction(direction.opposite()) {
                Some(r) => Some(r),
                None => self.get_first_target_in_direction(direction),
            },
        }
    }

    /// Removes `request` from the pending set if it is there; reports
    /// whether it was.
    fn remove_request(&mut self, request: &ElevatorRequest) -> (removed: bool)
        requires
            old(self).wf(),
        ensures
            final(self).wf(),
            removed == old(self)@.requests.contains(*request),
            final(self)@.requests == remove_request_seq(old(self)@.requests, *request),
            final(self)@.current_floor == old(self)@.current_floor,
            final(self)@.target_floor == old(self)@.target_floor,
            final(self)@.state == old(self)@.state,
            final(self)@.waiting_time_ms == old(self)@.waiting_time_ms,
    {
        let ghost s = self.request_buffer@;
        match Self::find_request_index(&self.request_buffer, request) {
            Some(i) => {
                proof {
                    assert(s.contains(*request));
                    let j = s.index_of(*request);
                    assert(0 <= j < s.len() && s[j] == *request);
                    if j != i {
                        assert(s[j] != s[i as int]);  // uniqueness contradiction
                    }
                    lemma_remove_keeps_unique(s, i as int);
                }
                self.request_buffer.remove(i);
                true
            },
            None => false,
        }
    }

    /// Serves the stop at the current floor: removes the pending call
    /// `{direction, current_floor}` or, failing that, the one in the
    /// opposite direction at the same floor.
    fn remove_finished_request(&mut self, direction: ElevatorDirection)
        requires
            old(self).wf(),
        ensures
            final(self).wf(),
            final(self)@.requests == remove_finished_seq(
                old(self)@.requests,
                direction,
                old(self)@.current_floor,
            ),
            final(self)@.current_floor == old(self)@.current_floor,
            final(self)@.target_floor == old(self)@.target_floor,
            final(self)@.state == old(self)@.state,
            final(self)@.waiting_time_ms == old(self)@.waiting_time_ms,
    {
        let same = ElevatorRequest { direction, floor: self.current_floor };
        if !self.remove_request(&same) {
            let opposite = ElevatorRequest {
                direction: direction.opposite(),
                floor: self.current_floor,
            };
            self.remove_request(&opposite);
        }
    }

    /// One tick of the dispatch state machine, `dt_ms` milliseconds
    /// after the previous one. From IDLE the idle policy commits the car
    /// to a request; while WAITING the stop's request is served, the
    /// dwell timer accumulates, and on expiry the post-wait policy
    /// resumes or idles the car; while MOVING the moving policy keeps
    /// the target fresh, and reports a fault if no pending request
    /// explains the movement.
    pub fn state_loop(&mut self, dt_ms: u64) -> (res: Result<(), ElevatorFault>)
        requires
            old(self).wf(),
        ensures
            final(self).wf(),
            state_loop_rel(old(self)@, dt_ms, final(self)@, res),
    {
        match self.state {
            ElevatorState::IDLE => {
                match self.get_next_request_on_idle() {
                    Some(request) => {
                        proof {
                            assert(is_idle_choice(old(self)@.requests, request));
                        }
                        self.target_floor = request.floor;
                        if self.current_floor == request.floor {
                            self.remove_request(&request);
                            self.state = ElevatorState::WAITING(
                                request.direction,
                                ElevatorDoorsState::CLOSED,
                            );
                        } else {
                            let direction = request.recalculate_direction(self.current_floor);
                            self.state = ElevatorState::MOVING(direction);
                        }
                    },
                    None => {},
                }
                Ok(())
            },
            ElevatorState::WAITING(direction, _) => {
                if self.waiting_time_ms == 0 {
                    self.remove_finished_request(direction);
                }
                let w1 = if dt_ms >= WAITING_DURATION_MS {
                    WAITING_DURATION_MS
                } else {
                    self.waiting_time_ms + dt_ms
                };
                if w1 >= WAITING_DURATION_MS {
                    self.waiting_time_ms = 0;
                    match self.get_next_request_after_waiting(direction) {
                        Some(request) => {
                            proof {
                                assert(is_post_wait_choice(
                                    self@.requests,
                                    direction,
                                    old(self)@.current_floor,
                                    old(self)@.target_floor,
                                    request,
                                ));
                            }
                            self.target_floor = request.floor;
                            let new_direction = request.recalculate_direction(self.current_floor);
                            self.state = ElevatorState::MOVING(new_direction);
                        },
                        None => {
                            self.state = ElevatorState::IDLE;
                        },
                    }
                } else {
                    self.waiting_time_ms = w1;
                }
                proof {
                    let pre = old(self)@;
                    let post = self@;
                    let s1 = waited_requests(pre, direction);
                    let w1s = pre.waiting_time_ms + dt_ms;
                    if w1s >= WAITING_DURATION_MS {
                        assert(post_wait_transition(s1, direction, pre, post));
                    }
                    assert(waiting_step(pre, direction, dt_ms, post));
                }
                Ok(())
            },
            ElevatorState::MOVING(direction) => {
                match self.get_next_request_while_moving(direction) {
                    Some(request) => {
                        proof {
                            assert(is_moving_choice(
                                old(self)@.requests,
                                direction,
                                old(self)@.current_floor,
                                old(self)@.target_floor,
                                request,
                            ));
                        }
                        self.target_floor = request.floor;
                        Ok(())
                    },
                    None => Err(ElevatorFault::MissingMovingRequest),
                }
            },
        }
    }

    /// Records that the car reached `reached_floor`. Only meaningful
    /// while moving: reaching the target floor stops the car into its
    /// dwell; any other floor just updates the position. When the car is
    /// not moving the notification is rejected and nothing changes.
    pub fn notify_reached_floor(&mut self, reached_floor: i8) -> (res: Result<
        (),
        ElevatorFloorReachErr,
    >)
        requires
            old(self).wf(),
        ensures
            final(self).wf(),
            match old(self)@.state {
                ElevatorState::MOVING(direction) => {
                    &&& res == Ok::<(), ElevatorFloorReachErr>(())
                    &&& final(self)@.current_floor == reached_floor
                    &&& final(self)@.state == if reached_floor == old(self)@.target_floor {
                        ElevatorState::WAITING(direction, ElevatorDoorsState::CLOSED)
                    } else {
                        old(self)@.state
                    }
                    &&& final(self)@.target_floor == old(self)@.target_floor
                    &&& final(self)@.requests == old(self)@.requests
                    &&& final(self)@.waiting_time_ms == old(self)@.waiting_time_ms
                },
                _ => {
                    &&& res == Err::<(), ElevatorFloorReachErr>(ElevatorFloorReachErr::NotMoving)
                    &&& final(self)@ == old(self)@
                },
            },
    {
        match self.state {
            ElevatorState::MOVING(direction) => {
                self.current_floor = reached_floor;
                if self.current_floor == self.target_floor {
                    self.state = ElevatorState::WAITING(direction, ElevatorDoorsState::CLOSED);
                }
                Ok(())
            },
            _ => Err(ElevatorFloorReachErr::NotMoving),
        }
    }
}

} // verus!
