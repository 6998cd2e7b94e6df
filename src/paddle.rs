//! Paddles: the direction in which a paddle moved during the last frame.

use vstd::prelude::*;

verus! {

/// The direction in which a paddle moved during the most recent frame.
#[derive(Clone, Copy, PartialEq, Eq, Debug, Structural)]
pub enum MoveDirection {
    /// The paddle stood still.
    Still,
    /// The paddle moved towards positive Y.
    Up,
    /// The paddle moved towards negative Y.
    Down,
}

/// The move that the keys held by one player ask for, given whether the paddle
/// still has room to rise (`can_rise`) or to fall (`can_fall`).
pub open spec fn input_move_spec(up: bool, down: bool, can_rise: bool, can_fall: bool) -> MoveDirection {
    if up && !down && can_rise {
        MoveDirection::Up
    } else if down && !up && can_fall {
        MoveDirection::Down
    } else {
        MoveDirection::Still
    }
}

/// Decides how a paddle moves this frame from the player's two keys.
///
/// Holding exactly one key moves the paddle that way, unless it already stands
/// at the limit on that side; holding none or both keeps it still.
pub fn input_move_direction(up: bool, down: bool, can_rise: bool, can_fall: bool) -> (r: MoveDirection)
    ensures
        r == input_move_spec(up, down, can_rise, can_fall),
{
    match (up, down) {
        (true, false) => {
            if can_rise {
                MoveDirection::Up
            } else {
                MoveDirection::Still
            }
        },
        (false, true) => {
            if can_fall {
                MoveDirection::Down
            } else {
                MoveDirection::Still
            }
        },
        _ => MoveDirection::Still,
    }
}

} // verus!
