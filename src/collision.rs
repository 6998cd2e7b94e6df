//! Decisions of one collision step.
//!
//! In each step the ball is tested against one wall and one paddle: those it
//! moves towards. The caller finds, in world units, whether each of them is
//! reached within the travel budget left for the frame and which is nearer;
//! this module says which contacts are then applied, in which order, and what
//! spin a paddle contact gives the ball.

use crate::curve::CurveDir;
use crate::paddle::MoveDirection;
use crate::player::PlayerId;
use vstd::prelude::*;

verus! {

/// A horizontal arena wall.
#[derive(Clone, Copy, Debug, PartialEq, Eq, Structural)]
pub enum Wall {
    Top,
    Bottom,
}

/// A surface that the ball can touch.
#[derive(Clone, Copy, Debug, PartialEq, Eq, Structural)]
pub enum Surface {
    Wall,
    Paddle,
}

/// How the distances to a paddle contact and to a wall contact compare.
#[derive(Clone, Copy, Debug, PartialEq, Eq, Structural)]
pub enum Nearer {
    /// The paddle contact is strictly nearer.
    Paddle,
    /// The wall contact is strictly nearer.
    Wall,
    /// Both lie at exactly the same distance: the ball meets a corner.
    Tie,
}

/// The wall and the paddle that a ball can reach in one step.
#[derive(Clone, Copy, Debug, PartialEq, Eq, Structural)]
pub struct Candidates {
    pub wall: Wall,
    pub paddle: PlayerId,
}

/// The surfaces to test for a ball that moves up (positive Y) or not, and
/// right (positive X) or not: the top wall when moving up, else the bottom
/// one; the right paddle (player 2) when moving right, else the left one.
pub fn candidates(moving_up: bool, moving_right: bool) -> (c: Candidates)
    ensures
        c.wall == (if moving_up { Wall::Top } else { Wall::Bottom }),
        c.paddle == (if moving_right { PlayerId::Player2 } else { PlayerId::Player1 }),
{
    Candidates {
        wall: if moving_up { Wall::Top } else { Wall::Bottom },
        paddle: if moving_right { PlayerId::Player2 } else { PlayerId::Player1 },
    }
}

/// The contacts applied in one step, in order.
pub open spec fn contacts_spec(paddle_hit: bool, wall_hit: bool, nearer: Nearer) -> Seq<Surface> {
    if paddle_hit && wall_hit {
        match nearer {
            Nearer::Paddle => seq![Surface::Paddle],
            Nearer::Wall => seq![Surface::Wall],
            Nearer::Tie => seq![Surface::Wall, Surface::Paddle],
        }
    } else if paddle_hit {
        seq![Surface::Paddle]
    } else if wall_hit {
        seq![Surface::Wall]
    } else {
        seq![]
    }
}

/// Chooses the contacts of one step from whether the paddle and the wall are
/// reached within the budget, and which is nearer when both are.
///
/// A single contact is applied alone; of two, the nearer one; at a corner both,
/// the wall first. An empty result ends the frame's collision loop.
pub fn contacts_to_apply(paddle_hit: bool, wall_hit: bool, nearer: Nearer) -> (r: Vec<Surface>)
    ensures
        r@ == contacts_spec(paddle_hit, wall_hit, nearer),
{
    let mut r: Vec<Surface> = Vec::new();
    if paddle_hit && wall_hit {
        match nearer {
            Nearer::Paddle => r.push(Surface::Paddle),
            Nearer::Wall => r.push(Surface::Wall),
            Nearer::Tie => {
                r.push(Surface::Wall);
                r.push(Surface::Paddle);
            },
        }
    } else if paddle_hit {
        r.push(Surface::Paddle);
    } else if wall_hit {
        r.push(Surface::Wall);
    }
    assert(r@ =~= contacts_spec(paddle_hit, wall_hit, nearer));
    r
}

/// The spin that a contact with `paddle` gives the ball when that paddle moved
/// in direction `moved` during the frame.
pub open spec fn contact_spin_spec(paddle: PlayerId, moved: MoveDirection) -> CurveDir {
    match (paddle, moved) {
        (_, MoveDirection::Still) => CurveDir::Straight,
        (PlayerId::Player2, MoveDirection::Up) => CurveDir::CounterClockwise,
        (PlayerId::Player2, MoveDirection::Down) => CurveDir::Clockwise,
        (PlayerId::Player1, MoveDirection::Up) => CurveDir::Clockwise,
        (PlayerId::Player1, MoveDirection::Down) => CurveDir::CounterClockwise,
    }
}

/// The spin imparted by a paddle contact.
///
/// On the right paddle (player 2) moving up gives counter-clockwise spin and
/// moving down clockwise spin; the left paddle (player 1) is the mirror image;
/// a paddle that stood still gives none.
pub fn contact_spin(paddle: PlayerId, moved: MoveDirection) -> (d: CurveDir)
    ensures
        d == contact_spin_spec(paddle, moved),
{
    match (paddle, moved) {
        (_, MoveDirection::Still) => CurveDir::Straight,
        (PlayerId::Player2, MoveDirection::Up) => CurveDir::CounterClockwise,
        (PlayerId::Player2, MoveDirection::Down) => CurveDir::Clockwise,
        (PlayerId::Player1, MoveDirection::Up) => CurveDir::Clockwise,
        (PlayerId::Player1, MoveDirection::Down) => CurveDir::CounterClockwise,
    }
}

} // verus!
