//! The ball's own state: whether it is paused, and its spin.
//!
//! Where the ball is and where it heads are world-unit quantities that the
//! caller keeps; the rules on pausing, serving, resetting, contacts and leaving
//! the arena live here.

use crate::collision::{contact_spin, contact_spin_spec, Surface};
use crate::curve::{
    blink_index_after, level_blinks, level_colors, next_curve, CurveDir, CurveState, Rgb,
};
use crate::paddle::MoveDirection;
use crate::player::PlayerId;
use std::time::Duration;
use vstd::prelude::*;

verus! {

/// Reports that the ball passed the left or right edge of the arena without
/// bouncing off a paddle.
#[derive(Clone, Copy, PartialEq, Eq, Debug, Structural)]
pub enum BallOffScreen {
    Left,
    Right,
}

/// What the off-screen test reports for a ball.
pub open spec fn off_screen_spec(paused: bool, beyond_edge: bool, on_right: bool) -> Option<
    BallOffScreen,
> {
    if paused || !beyond_edge {
        None
    } else if on_right {
        Some(BallOffScreen::Right)
    } else {
        Some(BallOffScreen::Left)
    }
}

/// The ball: paused or moving, and its spin.
pub struct Ball {
    paused: bool,
    curve: CurveState,
}

impl Ball {
    pub closed spec fn wf(&self) -> bool {
        self.curve.wf()
    }

    pub closed spec fn spec_paused(&self) -> bool {
        self.paused
    }

    pub closed spec fn spec_curve(&self) -> CurveState {
        self.curve
    }

    /// A paused ball without spin, as created at startup.
    pub fn new() -> (b: Ball)
        ensures
            b.wf(),
            b.spec_paused(),
            b.spec_curve().spec_dir() == CurveDir::Straight,
            b.spec_curve().spec_level() == 0,
    {
        Ball { paused: true, curve: CurveState::new() }
    }

    /// Whether the ball is paused.
    pub fn is_paused(&self) -> (p: bool)
        ensures
            p == self.spec_paused(),
    {
        self.paused
    }

    /// The spin of the ball.
    pub fn curve(&self) -> (c: &CurveState)
        ensures
            *c == self.spec_curve(),
    {
        &self.curve
    }

    /// Pauses the ball and clears its spin, as between rounds. The caller moves
    /// it back to the middle of the arena.
    pub fn reset(&mut self)
        requires
            old(self).wf(),
        ensures
            final(self).wf(),
            final(self).spec_paused(),
            final(self).spec_curve().spec_dir() == CurveDir::Straight,
            final(self).spec_curve().spec_level() == 0,
            final(self).spec_curve().spec_color_idx() == old(self).spec_curve().spec_color_idx(),
    {
        self.curve.apply_curve(CurveDir::Straight);
        self.paused = true;
    }

    /// Lets the ball move; its spin is kept. The caller gives it its new heading.
    pub fn start(&mut self)
        requires
            old(self).wf(),
        ensures
            final(self).wf(),
            !final(self).spec_paused(),
            final(self).spec_curve() == old(self).spec_curve(),
    {
        self.paused = false;
    }

    /// Records a contact of the ball with `surface`. A wall leaves the spin as
    /// it is; a paddle feeds into it the spin that `paddle`, having moved in
    /// direction `moved`, imparts.
    pub fn apply_contact(&mut self, surface: Surface, paddle: PlayerId, moved: MoveDirection)
        requires
            old(self).wf(),
        ensures
            final(self).wf(),
            final(self).spec_paused() == old(self).spec_paused(),
            surface == Surface::Wall ==> final(self).spec_curve() == old(self).spec_curve(),
            surface == Surface::Paddle ==> ({
                let spin = contact_spin_spec(paddle, moved);
                let before = old(self).spec_curve();
                let after = final(self).spec_curve();
                &&& (after.spec_dir(), after.spec_level()) == next_curve(
                    before.spec_dir(),
                    before.spec_level(),
                    spin,
                )
                &&& after.spec_color_idx() == if (after.spec_dir(), after.spec_level()) != (
                    before.spec_dir(),
                    before.spec_level(),
                ) && level_blinks(after.spec_level()) {
                    0
                } else {
                    before.spec_color_idx()
                }
            }),
    {
        match surface {
            Surface::Wall => {},
            Surface::Paddle => {
                let spin = contact_spin(paddle, moved);
                self.curve.apply_curve(spin);
            },
        }
    }

    /// Reports whether a ball that is `beyond_edge` (its centre further from
    /// the middle line than half the arena width less its radius) has left the
    /// arena, and on which side. A paused ball is never reported.
    pub fn off_screen(&self, beyond_edge: bool, on_right: bool) -> (r: Option<BallOffScreen>)
        ensures
            r == off_screen_spec(self.spec_paused(), beyond_edge, on_right),
    {
        if self.paused || !beyond_edge {
            None
        } else if on_right {
            Some(BallOffScreen::Right)
        } else {
            Some(BallOffScreen::Left)
        }
    }

    /// The color to show this frame, after `time_delta` of blink animation.
    pub fn color(&mut self, time_delta: Duration) -> (c: Rgb)
        requires
            old(self).wf(),
        ensures
            final(self).wf(),
            final(self).spec_paused() == old(self).spec_paused(),
            final(self).spec_curve().spec_dir() == old(self).spec_curve().spec_dir(),
            final(self).spec_curve().spec_level() == old(self).spec_curve().spec_level(),
            ({
                let before = old(self).spec_curve();
                let after = final(self).spec_curve();
                let level = before.spec_level();
                &&& !level_blinks(level) ==> after.spec_color_idx() == before.spec_color_idx()
                    && c == level_colors(level)[0]
                &&& level_blinks(level) ==> (exists|n: nat|
                    after.spec_color_idx() == #[trigger] blink_index_after(
                        level,
                        before.spec_color_idx(),
                        n,
                    )) && c == level_colors(level)[after.spec_color_idx()]
            }),
    {
        self.curve.get_color(time_delta)
    }
}

} // verus!
