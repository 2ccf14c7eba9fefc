use elevator_sim::Elevator;
use elevator_sim::ElevatorDirection;
use elevator_sim::ElevatorDoorsState;
use elevator_sim::ElevatorRequest;
use elevator_sim::ElevatorRequestErr;
use elevator_sim::ElevatorState;
use elevator_sim::format_elevator_state;
use elevator_sim::format_request;
use elevator_sim::ElevatorFault;
use elevator_sim::ElevatorFloorReachErr;

#[test]
fn test_initial_state() {
    let elevator = Elevator::new();
    assert_eq!(elevator.get_current_floor(), 0);
    assert_eq!(elevator.get_target_floor(), 0);
    assert_eq!(*elevator.get_state(), ElevatorState::IDLE);
    assert!(elevator.get_all_requests().is_empty());
    assert_eq!(elevator.get_waiting_time_ms(), 0);

    let by_default = Elevator::default();
    assert_eq!(*by_default.get_state(), ElevatorState::IDLE);
    assert_eq!(by_default.get_current_floor(), 0);
}

#[test]
fn test_duplicate_grows_set_by_one() {
    let mut elevator = Elevator::new();
    let req = ElevatorRequest::new(ElevatorDirection::UP, 4);
    assert_eq!(elevator.hall_call(req), Ok(true));
    assert_eq!(
        elevator.hall_call(req),
        Err(ElevatorRequestErr::DUPLICATE)
    );
    // The pair of calls grew the pending set by exactly one.
    assert_eq!(elevator.get_all_requests().len(), 1);
    assert_eq!(elevator.get_all_requests()[0], req);
}

#[test]
fn test_current_floor_car_call_mutates_nothing() {
    let mut elevator = Elevator::new();
    elevator.set_current_floor(6);
    assert_eq!(elevator.hall_call(ElevatorRequest::new(ElevatorDirection::DOWN, 2)), Ok(true));

    let before = elevator.get_all_requests();
    assert_eq!(elevator.car_call(6), Err(ElevatorRequestErr::CurrentFloor));
    assert_eq!(elevator.get_all_requests(), before);
    assert_eq!(*elevator.get_state(), ElevatorState::IDLE);
}

#[test]
fn test_idle_bias_prefers_up() {
    let mut elevator = Elevator::new();
    elevator.set_current_floor(5);
    assert_eq!(elevator.hall_call(ElevatorRequest::new(ElevatorDirection::DOWN, 1)), Ok(true));
    assert_eq!(elevator.hall_call(ElevatorRequest::new(ElevatorDirection::UP, 9)), Ok(true));
    let _ = elevator.state_loop(100);
    // With both directions pending, the UP request is committed to first.
    assert_eq!(
        *elevator.get_state(),
        ElevatorState::MOVING(ElevatorDirection::UP)
    );
    assert_eq!(elevator.get_target_floor(), 9);
}

#[test]
fn test_immediate_floor_request_is_removed() {
    let mut elevator = Elevator::new();
    elevator.set_current_floor(5);
    assert_eq!(elevator.hall_call(ElevatorRequest::new(ElevatorDirection::DOWN, 5)), Ok(true));
    let _ = elevator.state_loop(100);
    // No moving phase: the car serves the call on the spot.
    assert_eq!(
        *elevator.get_state(),
        ElevatorState::WAITING(ElevatorDirection::DOWN, ElevatorDoorsState::CLOSED)
    );
    assert!(elevator.get_all_requests().is_empty());
    assert_eq!(elevator.get_target_floor(), 5);
}

#[test]
fn test_dwell_duration_boundary() {
    let mut elevator = Elevator::new();
    assert_eq!(elevator.hall_call(ElevatorRequest::new(ElevatorDirection::UP, 0)), Ok(true));
    let _ = elevator.state_loop(100);
    assert!(matches!(*elevator.get_state(), ElevatorState::WAITING(_, _)));

    // Accumulate strictly less than the dwell duration: still waiting.
    let _ = elevator.state_loop(2000);
    assert!(matches!(*elevator.get_state(), ElevatorState::WAITING(_, _)));
    assert_eq!(elevator.get_waiting_time_ms(), 2000);
    let _ = elevator.state_loop(2999);
    assert!(matches!(*elevator.get_state(), ElevatorState::WAITING(_, _)));
    assert_eq!(elevator.get_waiting_time_ms(), 4999);

    // Reaching exactly the dwell duration leaves the wait.
    let _ = elevator.state_loop(1);
    assert_eq!(*elevator.get_state(), ElevatorState::IDLE);
    assert_eq!(elevator.get_waiting_time_ms(), 0);
}

#[test]
fn test_turn_around_prefers_reachable_up() {
    let mut elevator = Elevator::new();
    elevator.set_current_floor(8);
    assert_eq!(elevator.hall_call(ElevatorRequest::new(ElevatorDirection::DOWN, 5)), Ok(true));
    let _ = elevator.state_loop(100);
    assert_eq!(
        *elevator.get_state(),
        ElevatorState::MOVING(ElevatorDirection::DOWN)
    );
    assert_eq!(elevator.notify_reached_floor(5), Ok(()));
    assert!(matches!(*elevator.get_state(), ElevatorState::WAITING(_, _)));

    // While the car dwells, an UP call above it and a farther DOWN call
    // above it arrive.
    assert_eq!(elevator.hall_call(ElevatorRequest::new(ElevatorDirection::UP, 6)), Ok(true));
    assert_eq!(elevator.hall_call(ElevatorRequest::new(ElevatorDirection::DOWN, 12)), Ok(true));

    // The dwell expires: the post-wait policy turns around to the UP
    // call rather than chasing the farther DOWN call.
    let _ = elevator.state_loop(5100);
    assert_eq!(
        *elevator.get_state(),
        ElevatorState::MOVING(ElevatorDirection::UP)
    );
    assert_eq!(elevator.get_target_floor(), 6);
}

#[test]
fn test_round_trip() {
    let mut elevator = Elevator::new();
    assert_eq!(elevator.hall_call(ElevatorRequest::new(ElevatorDirection::UP, 3)), Ok(true));

    let _ = elevator.state_loop(100);
    assert_eq!(
        *elevator.get_state(),
        ElevatorState::MOVING(ElevatorDirection::UP)
    );
    assert_eq!(elevator.get_target_floor(), 3);

    for floor in 1..=3 {
        assert_eq!(elevator.notify_reached_floor(floor), Ok(()));
        let _ = elevator.state_loop(100);
    }
    assert_eq!(elevator.get_current_floor(), 3);
    assert!(matches!(*elevator.get_state(), ElevatorState::WAITING(_, _)));

    // The dwell expires with nothing left to do: back to IDLE, empty set.
    let _ = elevator.state_loop(5000);
    assert_eq!(*elevator.get_state(), ElevatorState::IDLE);
    assert!(elevator.get_all_requests().is_empty());
}

#[test]
fn test_notify_rejected_when_not_moving() {
    let mut elevator = Elevator::new();
    assert_eq!(
        elevator.notify_reached_floor(2),
        Err(ElevatorFloorReachErr::NotMoving)
    );
    // The rejected notification changed nothing.
    assert_eq!(elevator.get_current_floor(), 0);
    assert_eq!(*elevator.get_state(), ElevatorState::IDLE);
}

#[test]
fn test_moving_without_request_faults() {
    let mut elevator = Elevator::new();
    assert_eq!(elevator.hall_call(ElevatorRequest::new(ElevatorDirection::UP, 5)), Ok(true));
    let _ = elevator.state_loop(100);
    assert_eq!(
        *elevator.get_state(),
        ElevatorState::MOVING(ElevatorDirection::UP)
    );

    // Teleport the car past its target: the pending UP call at 5 no
    // longer explains the upward movement, which the engine reports.
    elevator.set_current_floor(7);
    assert_eq!(
        elevator.state_loop(100),
        Err(ElevatorFault::MissingMovingRequest)
    );
    // The fault leaves the state untouched for the host to inspect.
    assert_eq!(
        *elevator.get_state(),
        ElevatorState::MOVING(ElevatorDirection::UP)
    );
    assert_eq!(elevator.get_all_requests().len(), 1);
}

#[test]
fn test_en_route_pickup_nearest_wins() {
    let mut elevator = Elevator::new();
    elevator.set_current_floor(1);
    assert_eq!(elevator.hall_call(ElevatorRequest::new(ElevatorDirection::UP, 10)), Ok(true));
    let _ = elevator.state_loop(100);
    assert_eq!(elevator.get_target_floor(), 10);

    assert_eq!(elevator.hall_call(ElevatorRequest::new(ElevatorDirection::UP, 5)), Ok(true));
    assert_eq!(elevator.hall_call(ElevatorRequest::new(ElevatorDirection::UP, 8)), Ok(true));
    let _ = elevator.state_loop(100);
    // Of the three pending UP calls the nearest on the way wins.
    assert_eq!(elevator.get_target_floor(), 5);
}

#[test]
fn test_direction_opposite() {
    assert_eq!(ElevatorDirection::UP.opposite(), ElevatorDirection::DOWN);
    assert_eq!(ElevatorDirection::DOWN.opposite(), ElevatorDirection::UP);
}

#[test]
fn test_request_new_and_recalculate() {
    let req = ElevatorRequest::new(ElevatorDirection::DOWN, 4);
    assert_eq!(req.direction, ElevatorDirection::DOWN);
    assert_eq!(req.floor, 4);
    assert_eq!(req.recalculate_direction(4), ElevatorDirection::DOWN);
    assert_eq!(req.recalculate_direction(1), ElevatorDirection::UP);
    assert_eq!(req.recalculate_direction(9), ElevatorDirection::DOWN);
}

#[test]
fn test_format_elevator_state() {
    assert_eq!(format_elevator_state(&ElevatorState::IDLE), "IDLE");
    assert_eq!(
        format_elevator_state(&ElevatorState::MOVING(ElevatorDirection::UP)),
        "MOVING"
    );
    assert_eq!(
        format_elevator_state(&ElevatorState::WAITING(
            ElevatorDirection::DOWN,
            ElevatorDoorsState::CLOSED
        )),
        "WAITING"
    );
}

#[test]
fn test_format_request() {
    let req = ElevatorRequest::new(ElevatorDirection::UP, 5);
    assert_eq!(format_request(&req), "Floor: 5, Dir: UP");
    let req = ElevatorRequest::new(ElevatorDirection::DOWN, 120);
    assert_eq!(format_request(&req), "Floor: 120, Dir: DOWN");
}

#[test]
fn test_format_request_negative_floor() {
    let req = ElevatorRequest::new(ElevatorDirection::DOWN, -3);
    assert_eq!(format_request(&req), "Floor: -3, Dir: DOWN");
    let req = ElevatorRequest::new(ElevatorDirection::UP, -128);
    assert_eq!(format_request(&req), "Floor: -128, Dir: UP");
}
