//! Per-frame motion, collision and spin logic for the ball of a two-paddle
//! arena game.
//!
//! The library holds the discrete part of the simulation: which player owns
//! which data, the spin ("curve") state machine of the ball, the order in which
//! surface contacts found in one step are applied, how a paddle contact turns
//! into spin, and when the ball is reported as having left the arena.
//! Geometry in world units is computed by the caller and handed in as plain
//! facts (which surface was reached, which contact is nearer).

pub mod ball;
pub mod collision;
pub mod curve;
pub mod paddle;
pub mod player;

pub use ball::{Ball, BallOffScreen};
pub use collision::{candidates, contact_spin, contacts_to_apply, Candidates, Nearer, Surface, Wall};
pub use curve::{
    curve_level, BallColor, CurveDir, CurveLevel, CurveState, Rgb, BLINK_PERIOD_MS, CURVE_LEVEL_COUNT,
    MAX_CURVE_LEVEL,
};
pub use paddle::{input_move_direction, MoveDirection};
pub use player::{AsPerPlayerData, PlayerId};

