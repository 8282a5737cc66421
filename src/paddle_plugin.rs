use vstd::prelude::*;

use crate::config_plugin::{COORD_LIMIT, HALF_HEIGHT, HALF_WIDTH};
use crate::geometry::{div_toward_zero_wide, trunc_div, Vec2, MICROS_PER_SECOND, UNIT};

verus! {

pub const PADDLE_WIDTH: i64 = 30 * UNIT;

pub const PADDLE_HEIGHT: i64 = 6 * UNIT;

/// Gap kept between the paddle and a side wall.
pub const PADDLE_MARGIN: i64 = 4 * UNIT;

/// The paddle's centre never goes left of this.
pub const PADDLE_MIN_X: i64 = -HALF_WIDTH + 15 * UNIT + PADDLE_MARGIN;

/// The paddle's centre never goes right of this.
pub const PADDLE_MAX_X: i64 = HALF_WIDTH - 15 * UNIT - PADDLE_MARGIN;

/// The paddle rides at this height, just above the bottom wall.
pub const PADDLE_Y: i64 = -HALF_HEIGHT + 8 * UNIT;

/// The paddle and the kitty close this many times their gap to the target per second.
pub const EASE_RATE: i64 = 10;

/// Largest easing rate accepted, per second.
pub const EASE_RATE_LIMIT: i64 = 1000;

/// One easing step: `current` moves by `(target - current) * delta * rate`
/// (delta in microseconds, rate per second), rounded toward zero.
pub open spec fn eased(current: int, target: int, delta: int, rate: int) -> int {
    current + trunc_div((target - current) * delta * rate, MICROS_PER_SECOND as int)
}

/// A coordinate that the paddle and the kitty can hold.
pub open spec fn fits(v: int) -> bool {
    -COORD_LIMIT <= v <= COORD_LIMIT
}

/// One easing step, computed wide enough for any frame length.
pub fn eased_wide(current: i64, target: i64, delta: u32, rate: i64) -> (r: i128)
    requires
        fits(current as int),
        fits(target as int),
        0 <= rate <= EASE_RATE_LIMIT,
    ensures
        r == eased(current as int, target as int, delta as int, rate as int),
{
    let d: i128 = target as i128 - current as i128;
    assert(0 <= delta * rate <= 0x1_0000_0000 * EASE_RATE_LIMIT) by (nonlinear_arith)
        requires 0 <= rate <= EASE_RATE_LIMIT, 0 <= delta < 0x1_0000_0000int;
    let f: i128 = delta as i128 * rate as i128;
    assert(-(2 * COORD_LIMIT * 0x1_0000_0000 * EASE_RATE_LIMIT) <= d * f <= 2 * COORD_LIMIT * 0x1_0000_0000 * EASE_RATE_LIMIT)
        by (nonlinear_arith)
        requires 0 <= f <= 0x1_0000_0000 * EASE_RATE_LIMIT, -2 * COORD_LIMIT <= d <= 2 * COORD_LIMIT;
    assert(d * f == (target - current) * delta * rate) by (nonlinear_arith)
        requires d == target - current, f == delta * rate;
    let q = div_toward_zero_wide(d * f, MICROS_PER_SECOND as i128);
    current as i128 + q
}

/// Eases `current` toward `target` over `delta` microseconds at `rate` per
/// second. A step longer than `1 / rate` seconds overshoots the target, as
/// the law says; the result must still be a coordinate that can be held.
pub fn ease_toward(current: i64, target: i64, delta: u32, rate: i64) -> (r: i64)
    requires
        fits(current as int),
        fits(target as int),
        0 <= rate <= EASE_RATE_LIMIT,
        fits(eased(current as int, target as int, delta as int, rate as int)),
    ensures
        r == eased(current as int, target as int, delta as int, rate as int),
{
    eased_wide(current, target, delta, rate) as i64
}

/// The target that a pointer at world abscissa `x` sets: `x` clamped so that
/// the paddle keeps its margin from both walls.
pub open spec fn clamped_target(x: int) -> int {
    if x < PADDLE_MIN_X {
        PADDLE_MIN_X as int
    } else if x > PADDLE_MAX_X {
        PADDLE_MAX_X as int
    } else {
        x
    }
}

pub fn clamp_target(x: i64) -> (r: i64)
    ensures
        r == clamped_target(x as int),
        PADDLE_MIN_X <= r <= PADDLE_MAX_X,
{
    if x < PADDLE_MIN_X {
        PADDLE_MIN_X
    } else if x > PADDLE_MAX_X {
        PADDLE_MAX_X
    } else {
        x
    }
}

/// The player's paddle: its centre's abscissa and the abscissa it eases
/// toward. Its height is fixed at `PADDLE_Y`.
#[derive(Clone, Copy, Debug, PartialEq, Eq, Structural)]
pub struct PaddlePlugin {
    pub x: i64,
    pub target_position: i64,
}

impl PaddlePlugin {
    pub open spec fn wf(self) -> bool {
        fits(self.x as int) && PADDLE_MIN_X <= self.target_position <= PADDLE_MAX_X
    }

    /// The target after a frame: set, clamped, by a pointer sample given as
    /// its world position; kept without one.
    pub open spec fn next_target(self, pointer: Option<Vec2>) -> int {
        match pointer {
            Some(p) => clamped_target(p.x as int),
            None => self.target_position as int,
        }
    }

    /// The abscissa after a frame of `delta` microseconds.
    pub open spec fn next_x(self, delta: int, pointer: Option<Vec2>) -> int {
        eased(self.x as int, self.next_target(pointer), delta, EASE_RATE as int)
    }

    /// The paddle as placed when play starts: centred, at rest.
    pub fn setup() -> (r: PaddlePlugin)
        ensures
            r.wf(),
            r.x == 0,
            r.target_position == 0,
    {
        PaddlePlugin { x: 0, target_position: 0 }
    }

    pub open spec fn center_spec(self) -> Vec2 {
        Vec2::new_spec(self.x, PADDLE_Y)
    }

    /// The paddle's centre.
    pub fn center(&self) -> (r: Vec2)
        ensures
            r == self.center_spec(),
    {
        Vec2 { x: self.x, y: PADDLE_Y }
    }

    /// Whether a frame of `delta` microseconds with this pointer sample keeps
    /// the paddle at a coordinate that can be held.
    pub fn frame_fits(&self, delta: u32, pointer: Option<Vec2>) -> (r: bool)
        requires
            self.wf(),
        ensures
            r == fits(self.next_x(delta as int, pointer)),
    {
        let target = match pointer {
            Some(p) => clamp_target(p.x),
            None => self.target_position,
        };
        let x = eased_wide(self.x, target, delta, EASE_RATE);
        -(COORD_LIMIT as i128) <= x && x <= COORD_LIMIT as i128
    }

    /// One frame of paddle control: a pointer sample, given as its world
    /// position, sets the clamped target; without one the target stays. The
    /// paddle then eases toward the target.
    pub fn movement_system(&mut self, delta: u32, pointer: Option<Vec2>)
        requires
            old(self).wf(),
            fits(old(self).next_x(delta as int, pointer)),
        ensures
            final(self).wf(),
            final(self).target_position == old(self).next_target(pointer),
            final(self).x == old(self).next_x(delta as int, pointer),
    {
        if let Some(p) = pointer {
            self.target_position = clamp_target(p.x);
        }
        self.x = ease_toward(self.x, self.target_position, delta, EASE_RATE);
    }
}

/// Wherever the pointer goes, the paddle's target stays within
/// `[PADDLE_MIN_X, PADDLE_MAX_X]`, `HALF_WIDTH - PADDLE_WIDTH / 2 -
/// PADDLE_MARGIN` on either side of the centre.
pub proof fn lemma_paddle_target_clamped(before: PaddlePlugin, after: PaddlePlugin, pointer: Option<Vec2>)
    requires
        before.wf(),
        after.target_position == before.next_target(pointer),
    ensures
        -HALF_WIDTH + PADDLE_WIDTH / 2 + PADDLE_MARGIN <= after.target_position <= HALF_WIDTH - PADDLE_WIDTH / 2 - PADDLE_MARGIN,
{
}

} // verus!
