//! Textual rendering of requests and car states, for a host's display.

use crate::direction::ElevatorDirection;
use crate::request::ElevatorRequest;
use crate::request::ElevatorState;
use vstd::prelude::*;
use vstd::string::StringExecFns;

verus! {

/// The character for a single decimal digit.
pub open spec fn digit_char(d: nat) -> char {
    if d == 0 {
        '0'
    } else if d == 1 {
        '1'
    } else if d == 2 {
        '2'
    } else if d == 3 {
        '3'
    } else if d == 4 {
        '4'
    } else if d == 5 {
        '5'
    } else if d == 6 {
        '6'
    } else if d == 7 {
        '7'
    } else if d == 8 {
        '8'
    } else {
        '9'
    }
}

/// The decimal digits of `n`, most significant first.
pub open spec fn decimal_digits(n: nat) -> Seq<char>
    decreases n,
{
    if n < 10 {
        seq![digit_char(n)]
    } else {
        decimal_digits(n / 10).push(digit_char(n % 10))
    }
}

/// The decimal rendering of `n`, with a leading minus sign when
/// negative.
pub open spec fn signed_decimal(n: int) -> Seq<char> {
    if n < 0 {
        seq!['-'] + decimal_digits((-n) as nat)
    } else {
        decimal_digits(n as nat)
    }
}

/// The name of a direction, as its debug rendering spells it.
pub open spec fn direction_text(direction: ElevatorDirection) -> Seq<char> {
    match direction {
        ElevatorDirection::UP => "UP"@,
        ElevatorDirection::DOWN => "DOWN"@,
    }
}

/// The display name of a car state; the direction and doors of a state
/// are not rendered.
pub open spec fn state_text(state: ElevatorState) -> Seq<char> {
    match state {
        ElevatorState::IDLE => "IDLE"@,
        ElevatorState::MOVING(_) => "MOVING"@,
        ElevatorState::WAITING(_, _) => "WAITING"@,
    }
}

/// The one-line rendering of a request: its floor, then its direction.
pub open spec fn request_text(request: ElevatorRequest) -> Seq<char> {
    "Floor: "@ + signed_decimal(request.floor as int) + ", Dir: "@ + direction_text(
        request.direction,
    )
}

/// One decimal digit as a string slice.
fn digit_str(d: u16) -> (s: &'static str)
    requires
        d < 10,
    ensures
        s@ == seq![digit_char(d as nat)],
{
    let s: &'static str = if d == 0 {
        "0"
    } else if d == 1 {
        "1"
    } else if d == 2 {
        "2"
    } else if d == 3 {
        "3"
    } else if d == 4 {
        "4"
    } else if d == 5 {
        "5"
    } else if d == 6 {
        "6"
    } else if d == 7 {
        "7"
    } else if d == 8 {
        "8"
    } else {
        "9"
    };
    proof {
        reveal_strlit("0");
        reveal_strlit("1");
        reveal_strlit("2");
        reveal_strlit("3");
        reveal_strlit("4");
        reveal_strlit("5");
        reveal_strlit("6");
        reveal_strlit("7");
        reveal_strlit("8");
        reveal_strlit("9");
        assert(s@ =~= seq![digit_char(d as nat)]);
    }
    s
}

/// The decimal digits of `m`, most significant first.
fn digits_string(m: u16) -> (s: String)
    ensures
        s@ == decimal_digits(m as nat),
    decreases m,
{
    if m < 10 {
        String::from_str(digit_str(m))
    } else {
        let mut s = digits_string(m / 10);
        s.append(digit_str(m % 10));
        proof {
            assert(s@ =~= decimal_digits(m as nat));
        }
        s
    }
}

/// The decimal rendering of a floor number.
fn floor_string(n: i8) -> (s: String)
    ensures
        s@ == signed_decimal(n as int),
{
    if n < 0 {
        let mut s = String::from_str("-");
        let magnitude = -(n as i16);
        s.append(digits_string(magnitude as u16).as_str());
        proof {
            reveal_strlit("-");
            assert(s@ =~= signed_decimal(n as int));
        }
        s
    } else {
        digits_string(n as u16)
    }
}

/// Renders a request as `Floor: <floor>, Dir: <direction>`.
pub fn format_request(request: &ElevatorRequest) -> (s: String)
    ensures
        s@ == request_text(*request),
{
    let mut s = String::from_str("Floor: ");
    s.append(floor_string(request.floor).as_str());
    s.append(", Dir: ");
    match request.direction {
        ElevatorDirection::UP => s.append("UP"),
        ElevatorDirection::DOWN => s.append("DOWN"),
    }
    proof {
        assert(s@ =~= request_text(*request));
    }
    s
}

/// Renders a car state's display name.
pub fn format_elevator_state(state: &ElevatorState) -> (s: String)
    ensures
        s@ == state_text(*state),
{
    match state {
        ElevatorState::IDLE => String::from_str("IDLE"),
        ElevatorState::MOVING(_) => String::from_str("MOVING"),
        ElevatorState::WAITING(_, _) => String::from_str("WAITING"),
    }
}

} // verus!
