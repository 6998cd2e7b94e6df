//! The spin ("curve") state of the ball.
//!
//! A ball carries a spin direction and a spin level. Paddle contacts feed a new
//! direction into `CurveState::apply_curve`; the level then selects a row of a
//! fixed table that gives the ball's color (solid, or blinking through a
//! sequence), how fast its sprite turns, and how fast its travel direction bends.
//! Angular rates are counted in tenths of pi radians per second.

use bevy::time::Timer;
use std::time::Duration;
use vstd::prelude::*;

verus! {

/// Number of rows in the curve level table.
pub const CURVE_LEVEL_COUNT: usize = 4;

/// The highest curve level.
pub const MAX_CURVE_LEVEL: usize = 3;

/// Time for which each color of a blinking level is shown, in milliseconds.
pub const BLINK_PERIOD_MS: u64 = 230;

/// A color given by its 8-bit sRGB channels.
#[derive(Clone, Copy, Debug, PartialEq, Eq, Structural)]
pub struct Rgb {
    pub r: u8,
    pub g: u8,
    pub b: u8,
}

pub open spec fn green() -> Rgb {
    Rgb { r: 0, g: 255, b: 0 }
}

pub open spec fn yellow() -> Rgb {
    Rgb { r: 255, g: 255, b: 0 }
}

/// How a level colors the ball.
#[derive(Debug)]
pub enum BallColor {
    /// One fixed color.
    Solid(Rgb),
    /// The colors in turn, each for `period_ms` milliseconds.
    Blinking { period_ms: u64, colors: Vec<Rgb> },
}

/// One row of the curve level table.
#[derive(Debug)]
pub struct CurveLevel {
    pub color: BallColor,
    /// Speed at which the sprite turns, in tenths of pi radians per second.
    pub rotate_rate: u32,
    /// Speed at which the travel direction bends, in tenths of pi radians per second.
    pub curve_rate: u32,
}

/// Whether the level at `level` blinks.
pub open spec fn level_blinks(level: int) -> bool {
    level == 3
}

/// The colors of the level at `level`: one for a solid level, the blink
/// sequence for a blinking one.
pub open spec fn level_colors(level: int) -> Seq<Rgb> {
    if level == 2 {
        seq![yellow()]
    } else if level == 3 {
        seq![green(), yellow()]
    } else {
        seq![green()]
    }
}

/// Sprite turning speed of the level at `level`, in tenths of pi radians per second.
pub open spec fn level_rotate_rate(level: int) -> int {
    if level == 1 {
        20
    } else if level == 2 {
        30
    } else if level == 3 {
        50
    } else {
        0
    }
}

/// Trajectory bending speed of the level at `level`, in tenths of pi radians per second.
pub open spec fn level_curve_rate(level: int) -> int {
    if level == 1 {
        1
    } else if level == 2 {
        3
    } else if level == 3 {
        6
    } else {
        0
    }
}

/// `color` is the coloring that the table gives the level at `level`.
pub open spec fn is_level_color(color: BallColor, level: int) -> bool {
    match color {
        BallColor::Solid(c) => !level_blinks(level) && seq![c] == level_colors(level),
        BallColor::Blinking { period_ms, colors } => {
            &&& level_blinks(level)
            &&& period_ms == BLINK_PERIOD_MS
            &&& colors@ == level_colors(level)
        },
    }
}

/// Returns the row of the curve level table at `level`.
pub fn curve_level(level: usize) -> (c: CurveLevel)
    requires
        level < CURVE_LEVEL_COUNT,
    ensures
        is_level_color(c.color, level as int),
        c.rotate_rate == level_rotate_rate(level as int),
        c.curve_rate == level_curve_rate(level as int),
{
    let green = Rgb { r: 0, g: 255, b: 0 };
    let yellow = Rgb { r: 255, g: 255, b: 0 };
    if level == 0 {
        CurveLevel { color: BallColor::Solid(green), rotate_rate: 0, curve_rate: 0 }
    } else if level == 1 {
        CurveLevel { color: BallColor::Solid(green), rotate_rate: 20, curve_rate: 1 }
    } else if level == 2 {
        CurveLevel { color: BallColor::Solid(yellow), rotate_rate: 30, curve_rate: 3 }
    } else {
        let colors = vec![green, yellow];
        assert(colors@ =~= level_colors(3));
        CurveLevel {
            color: BallColor::Blinking { period_ms: BLINK_PERIOD_MS, colors },
            rotate_rate: 50,
            curve_rate: 6,
        }
    }
}

/// The direction in which the ball spins, if any.
#[derive(PartialEq, Eq, Default, Clone, Copy, Debug, Structural)]
pub enum CurveDir {
    #[default]
    Straight,
    Clockwise,
    CounterClockwise,
}

/// `magnitude` with the sign of a spin: negative clockwise, positive
/// counter-clockwise, zero without spin.
pub open spec fn signed_rate(dir: CurveDir, magnitude: int) -> int {
    match dir {
        CurveDir::Clockwise => -magnitude,
        CurveDir::CounterClockwise => magnitude,
        CurveDir::Straight => 0,
    }
}

/// The (direction, level) that follows `(dir, level)` when `new_dir` is applied.
pub open spec fn next_curve(dir: CurveDir, level: int, new_dir: CurveDir) -> (CurveDir, int) {
    if new_dir == CurveDir::Straight {
        (CurveDir::Straight, 0)
    } else if new_dir == dir {
        (dir, if level < MAX_CURVE_LEVEL { level + 1 } else { level })
    } else {
        (new_dir, 1)
    }
}

/// The blink timer of bevy, carried opaquely.
#[verifier::external_type_specification]
#[verifier::external_body]
pub struct ExTimer(Timer);

/// The (direction, level) reached from `(dir, level)` by applying `spin`
/// `n` times in a row.
pub open spec fn spin_repeatedly(dir: CurveDir, level: int, spin: CurveDir, n: nat) -> (
    CurveDir,
    int,
)
    decreases n,
{
    if n == 0 {
        (dir, level)
    } else {
        let prev = spin_repeatedly(dir, level, spin, (n - 1) as nat);
        next_curve(prev.0, prev.1, spin)
    }
}

/// Applying the same spin direction `n` times to a ball without spin leaves
/// it at level `min(n, 3)`: one level per contact, stopping at the last row of
/// the table whatever `n` is.
pub proof fn lemma_repeated_spin_caps(spin: CurveDir, n: nat)
    requires
        spin != CurveDir::Straight,
    ensures
        spin_repeatedly(CurveDir::Straight, 0, spin, n).1 == if n < MAX_CURVE_LEVEL {
            n as int
        } else {
            MAX_CURVE_LEVEL as int
        },
        spin_repeatedly(CurveDir::Straight, 0, spin, n).1 < CURVE_LEVEL_COUNT,
        n > 0 ==> spin_repeatedly(CurveDir::Straight, 0, spin, n).0 == spin,
    decreases n,
{
    if n > 0 {
        lemma_repeated_spin_caps(spin, (n - 1) as nat);
    }
}

/// Clockwise spin followed by counter-clockwise spin leaves the ball spinning
/// counter-clockwise at level one, whatever its spin was before.
pub proof fn lemma_spin_reversal(dir: CurveDir, level: int)
    ensures
        ({
            let after_cw = next_curve(dir, level, CurveDir::Clockwise);
            next_curve(after_cw.0, after_cw.1, CurveDir::CounterClockwise)
        }) == (CurveDir::CounterClockwise, 1int),
{
}

/// Position in the blink sequence of the level at `level` after `finished`
/// more periods, starting from `idx`.
pub open spec fn blink_index_after(level: int, idx: int, finished: nat) -> int {
    (idx + finished) % (level_colors(level).len() as int)
}

/// A repeating timer that fires every `period_ms` milliseconds.
///
/// Relies on `bevy::time::Timer::new` in `TimerMode::Repeating`.
#[verifier::external_body]
fn repeating_timer(period_ms: u64) -> Timer {
    Timer::new(Duration::from_millis(period_ms), bevy::time::TimerMode::Repeating)
}

/// A timer that has not been started.
///
/// Relies on `bevy::time::Timer::default`.
#[verifier::external_body]
fn idle_timer() -> Timer {
    Timer::default()
}

/// Stops the timer from counting time.
///
/// Relies on `bevy::time::Timer::pause`.
#[verifier::external_body]
fn pause_timer(timer: &mut Timer) {
    timer.pause();
}

/// Advances the timer by `delta`.
///
/// Relies on `bevy::time::Timer::tick`.
#[verifier::external_body]
fn tick_timer(timer: &mut Timer, delta: Duration) {
    timer.tick(delta);
}

/// How many whole periods the last tick completed.
///
/// Relies on `bevy::time::Timer::times_finished_this_tick`.
#[verifier::external_body]
fn periods_finished(timer: &Timer) -> u32 {
    timer.times_finished_this_tick()
}

/// The spin of the ball: its direction, its level in the table, and the state
/// of the color animation of a blinking level.
pub struct CurveState {
    dir: CurveDir,
    level: usize,
    color_timer: Timer,
    color_idx: usize,
}

impl CurveState {
    /// The level stays within the table, a level above zero goes with a spin
    /// direction, and a blinking level points at one of its colors.
    pub closed spec fn wf(&self) -> bool {
        &&& self.level < CURVE_LEVEL_COUNT
        &&& (self.level == 0 <==> self.dir == CurveDir::Straight)
        &&& (level_blinks(self.level as int) ==> self.color_idx < level_colors(
            self.level as int,
        ).len())
    }

    pub closed spec fn spec_dir(&self) -> CurveDir {
        self.dir
    }

    pub closed spec fn spec_level(&self) -> int {
        self.level as int
    }

    pub closed spec fn spec_color_idx(&self) -> int {
        self.color_idx as int
    }

    /// A ball without spin.
    pub fn new() -> (s: CurveState)
        ensures
            s.wf(),
            s.spec_dir() == CurveDir::Straight,
            s.spec_level() == 0,
            s.spec_color_idx() == 0,
    {
        CurveState { dir: CurveDir::Straight, level: 0, color_timer: idle_timer(), color_idx: 0 }
    }

    /// The spin direction.
    pub fn dir(&self) -> (d: CurveDir)
        ensures
            d == self.spec_dir(),
    {
        self.dir
    }

    /// The row of the level table in use.
    pub fn level(&self) -> (l: usize)
        ensures
            l == self.spec_level(),
    {
        self.level
    }

    /// The position in the blink sequence.
    pub fn color_index(&self) -> (i: usize)
        ensures
            i == self.spec_color_idx(),
    {
        self.color_idx
    }

    /// Feeds a spin direction into the state.
    ///
    /// No spin clears the state to level zero. The spin already held raises the
    /// level by one, up to the last row. Any other spin takes over at level one.
    /// When direction or level changes, the color animation starts over for a
    /// blinking level and stops for a solid one.
    pub fn apply_curve(&mut self, dir: CurveDir)
        requires
            old(self).wf(),
        ensures
            final(self).wf(),
            (final(self).spec_dir(), final(self).spec_level()) == next_curve(
                old(self).spec_dir(),
                old(self).spec_level(),
                dir,
            ),
            final(self).spec_color_idx() == if (final(self).spec_dir(), final(self).spec_level())
                != (old(self).spec_dir(), old(self).spec_level()) && level_blinks(
                final(self).spec_level(),
            ) {
                0
            } else {
                old(self).spec_color_idx()
            },
    {
        let prev_dir = self.dir;
        let prev_level = self.level;
        if dir == CurveDir::Straight {
            self.dir = CurveDir::Straight;
            self.level = 0;
        } else if dir == self.dir {
            if self.level < MAX_CURVE_LEVEL {
                self.level = self.level + 1;
            }
        } else {
            self.dir = dir;
            self.level = 1;
        }
        if prev_dir != self.dir || prev_level != self.level {
            let row = curve_level(self.level);
            match row.color {
                BallColor::Solid(_) => pause_timer(&mut self.color_timer),
                BallColor::Blinking { period_ms, .. } => {
                    self.color_timer = repeating_timer(period_ms);
                    self.color_idx = 0;
                },
            }
        }
    }

    /// Moves the blink animation on by `finished` completed periods and returns
    /// the color to show.
    ///
    /// A solid level shows its color and keeps its animation state; a blinking
    /// level steps through its sequence, wrapping around at the end.
    pub fn advance_color(&mut self, finished: u32) -> (c: Rgb)
        requires
            old(self).wf(),
        ensures
            final(self).wf(),
            final(self).spec_dir() == old(self).spec_dir(),
            final(self).spec_level() == old(self).spec_level(),
            level_blinks(old(self).spec_level()) ==> final(self).spec_color_idx() == blink_index_after(
                old(self).spec_level(),
                old(self).spec_color_idx(),
                finished as nat,
            ),
            !level_blinks(old(self).spec_level()) ==> final(self).spec_color_idx()
                == old(self).spec_color_idx(),
            c == if level_blinks(old(self).spec_level()) {
                level_colors(old(self).spec_level())[final(self).spec_color_idx()]
            } else {
                level_colors(old(self).spec_level())[0]
            },
    {
        let row = curve_level(self.level);
        match row.color {
            BallColor::Solid(c) => {
                assert(seq![c][0] == c);
                c
            },
            BallColor::Blinking { colors, .. } => {
                let n = colors.len();
                let step = (finished as usize) % n;
                let idx = (self.color_idx + step) % n;
                assert(idx as int == (self.color_idx + finished) % (n as int)) by {
                    vstd::arithmetic::div_mod::lemma_add_mod_noop(
                        self.color_idx as int,
                        finished as int,
                        n as int,
                    );
                    vstd::arithmetic::div_mod::lemma_small_mod(self.color_idx as nat, n as nat);
                };
                self.color_idx = idx;
                colors[idx]
            },
        }
    }

    /// Returns the color to show this frame, after letting `time_delta` pass on
    /// the blink animation.
    ///
    /// The number of blink periods that complete is the timer's to decide; the
    /// result is what `advance_color` gives for some such number.
    pub fn get_color(&mut self, time_delta: Duration) -> (c: Rgb)
        requires
            old(self).wf(),
        ensures
            final(self).wf(),
            final(self).spec_dir() == old(self).spec_dir(),
            final(self).spec_level() == old(self).spec_level(),
            !level_blinks(old(self).spec_level()) ==> final(self).spec_color_idx()
                == old(self).spec_color_idx() && c == level_colors(old(self).spec_level())[0],
            level_blinks(old(self).spec_level()) ==> (exists|n: nat|
                final(self).spec_color_idx() == #[trigger] blink_index_after(
                    old(self).spec_level(),
                    old(self).spec_color_idx(),
                    n,
                )) && c == level_colors(
                old(self).spec_level(),
            )[final(self).spec_color_idx()],
    {
        let ghost level = self.spec_level();
        let ghost before = self.spec_color_idx();
        let mut finished: u32 = 0;
        if self.level == MAX_CURVE_LEVEL {
            tick_timer(&mut self.color_timer, time_delta);
            finished = periods_finished(&self.color_timer);
        }
        let c = self.advance_color(finished);
        assert(level_blinks(level) ==> self.spec_color_idx() == blink_index_after(
            level,
            before,
            finished as nat,
        ));
        c
    }

    /// Signed speed at which the sprite turns, in tenths of pi radians per
    /// second: negative for clockwise spin, zero without spin.
    pub fn rotation_rate(&self) -> (r: i32)
        requires
            self.wf(),
        ensures
            r == signed_rate(self.spec_dir(), level_rotate_rate(self.spec_level())),
    {
        let row = curve_level(self.level);
        match self.dir {
            CurveDir::Clockwise => -(row.rotate_rate as i32),
            CurveDir::CounterClockwise => row.rotate_rate as i32,
            CurveDir::Straight => 0,
        }
    }

    /// Signed speed at which the travel direction bends, in tenths of pi radians
    /// per second: negative for clockwise spin, zero without spin.
    pub fn trajectory_rate(&self) -> (r: i32)
        requires
            self.wf(),
        ensures
            r == signed_rate(self.spec_dir(), level_curve_rate(self.spec_level())),
    {
        let row = curve_level(self.level);
        match self.dir {
            CurveDir::Clockwise => -(row.curve_rate as i32),
            CurveDir::CounterClockwise => row.curve_rate as i32,
            CurveDir::Straight => 0,
        }
    }
}

} // verus!
