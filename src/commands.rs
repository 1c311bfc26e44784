//! The per-frame input that drives the simulation, and the rules that turn
//! raw key and touch state into it.
use vstd::prelude::*;

verus! {

/// Direction of a movement command along one axis.
#[derive(Clone, Copy, Debug, PartialEq, Eq, Structural)]
pub enum Movement {
    Neutral,
    Positive,
    Negative,
}

/// Everything the simulation reads from the player in one frame.
#[derive(Clone, Copy, Debug, PartialEq, Eq, Structural)]
pub struct Commands {
    pub should_quit: bool,
    pub forward_movement: Movement,
    pub left_movement: Movement,
    pub jump: bool,
    /// Wall-clock time of the frame, in milliseconds.
    pub ts_now: u64,
    pub pissing: bool,
}

/// The direction of a signed value: neutral for zero, else its sign.
pub open spec fn direction_of(value: int) -> Movement {
    if value == 0 {
        Movement::Neutral
    } else if value > 0 {
        Movement::Positive
    } else {
        Movement::Negative
    }
}

pub open spec fn abs(v: int) -> int {
    if v < 0 {
        -v
    } else {
        v
    }
}

/// Direction chosen on an axis from a drag vector, in eight-direction
/// steering: the axis counts when its component is more than half the other.
pub open spec fn eight_direction(main_direction: int, other_direction: int) -> Movement {
    if 2 * abs(main_direction) > abs(other_direction) {
        direction_of(main_direction)
    } else {
        Movement::Neutral
    }
}

impl Movement {
    /// The direction of a signed value.
    pub fn from_value(value: i64) -> (r: Movement)
        ensures
            r == direction_of(value as int),
    {
        if value == 0 {
            Movement::Neutral
        } else if value > 0 {
            Movement::Positive
        } else {
            Movement::Negative
        }
    }
}

/// Direction on an axis from a drag vector whose components are given in
/// any common unit; `main_direction` is the component along this axis.
pub fn eight_direction_movement(main_direction: i64, other_direction: i64) -> (r: Movement)
    ensures
        r == eight_direction(main_direction as int, other_direction as int),
{
    let main_abs: i128 = if main_direction < 0 {
        -(main_direction as i128)
    } else {
        main_direction as i128
    };
    let other_abs: i128 = if other_direction < 0 {
        -(other_direction as i128)
    } else {
        other_direction as i128
    };
    if main_abs > other_abs {
        Movement::from_value(main_direction)
    } else if 2 * main_abs > other_abs {
        Movement::from_value(main_direction)
    } else {
        Movement::Neutral
    }
}

/// Direction from two opposing keys: pressing both cancels out.
pub fn get_cancellable_movement(positive: bool, negative: bool) -> (r: Movement)
    ensures
        r == (if positive && !negative {
            Movement::Positive
        } else if negative && !positive {
            Movement::Negative
        } else {
            Movement::Neutral
        }),
{
    if positive && negative {
        Movement::Neutral
    } else if positive {
        Movement::Positive
    } else if negative {
        Movement::Negative
    } else {
        Movement::Neutral
    }
}

/// Keyboard movement wins; the on-screen stick is read only when no key
/// moves the player. `stick` is the drag vector as (lateral, forward).
pub fn combine_movement(
    keyboard_forward: Movement,
    keyboard_left: Movement,
    stick: Option<(i64, i64)>,
) -> (r: (Movement, Movement))
    ensures
        keyboard_forward != Movement::Neutral || keyboard_left != Movement::Neutral ==> r == (
        keyboard_forward,
        keyboard_left,
        ),
        keyboard_forward == Movement::Neutral && keyboard_left == Movement::Neutral ==> r == match stick {
            Some(v) => (eight_direction(v.1 as int, v.0 as int), eight_direction(v.0 as int, v.1 as int)),
            None => (Movement::Neutral, Movement::Neutral),
        },
{
    if keyboard_forward != Movement::Neutral || keyboard_left != Movement::Neutral {
        return (keyboard_forward, keyboard_left);
    }
    match stick {
        Some(v) => {
            let forward = eight_direction_movement(v.1, v.0);
            let left = eight_direction_movement(v.0, v.1);
            (forward, left)
        },
        None => (Movement::Neutral, Movement::Neutral),
    }
}

} // verus!
