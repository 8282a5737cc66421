use vstd::prelude::*;

use crate::config_plugin::{COORD_LIMIT, HALF_HEIGHT};
use crate::geometry::{Vec2, UNIT};
use crate::paddle_plugin::{ease_toward, eased, eased_wide, fits, EASE_RATE};
use crate::spawner::Spawner;

verus! {

/// The kitty sits this high, just under the top wall.
pub const KITTY_Y: i64 = HALF_HEIGHT - 13 * UNIT;

/// Period of the kitty's spawn timer, in microseconds.
pub const KITTY_SPAWN_PERIOD: u64 = 3_000_000;

/// How many kitties the spawner ever counts.
pub const KITTY_CAP: u8 = 1;

/// The cursor-following kitty: its position, of which only `x` moves, the
/// abscissa it eases toward, and its spawn tracker.
#[derive(Clone, Copy, Debug, PartialEq, Eq, Structural)]
pub struct KittyPlugin {
    pub position: Vec2,
    pub target_x: i64,
    pub tracker: Spawner,
}

pub open spec fn pointer_in_limit(pointer: Option<Vec2>) -> bool {
    match pointer {
        Some(p) => fits(p.x as int) && fits(p.y as int),
        None => true,
    }
}

impl KittyPlugin {
    pub open spec fn wf(self) -> bool {
        fits(self.position.x as int)
        && fits(self.target_x as int)
        && self.position.y == KITTY_Y
        && self.tracker.wf()
        && self.tracker.cap == KITTY_CAP
    }

    /// The target after a frame: the pointer's world abscissa, unclamped, or
    /// the last target without a pointer sample.
    pub open spec fn next_target(self, pointer: Option<Vec2>) -> int {
        match pointer {
            Some(p) => p.x as int,
            None => self.target_x as int,
        }
    }

    /// The abscissa after a frame of `delta` microseconds.
    pub open spec fn next_x(self, delta: int, pointer: Option<Vec2>) -> int {
        eased(self.position.x as int, self.next_target(pointer), delta, EASE_RATE as int)
    }

    /// The kitty as placed when play starts: centred under the top wall.
    pub fn setup() -> (r: KittyPlugin)
        ensures
            r.wf(),
            r.position == Vec2::new_spec(0, KITTY_Y),
            r.target_x == 0,
            r.tracker.count == 0,
            r.tracker.timer.period == KITTY_SPAWN_PERIOD,
            r.tracker.timer.elapsed == 0,
    {
        KittyPlugin {
            position: Vec2 { x: 0, y: KITTY_Y },
            target_x: 0,
            tracker: Spawner::new(KITTY_CAP, KITTY_SPAWN_PERIOD),
        }
    }

    /// Advances the spawn tracker; a due spawn is counted.
    pub fn spawner(&mut self, delta: u32)
        requires
            old(self).wf(),
        ensures
            final(self).wf(),
            final(self).position == old(self).position,
            final(self).target_x == old(self).target_x,
            final(self).tracker.timer.period == old(self).tracker.timer.period,
            final(self).tracker.timer.elapsed == old(self).tracker.timer.elapsed_after(delta as int),
            final(self).tracker.count == old(self).tracker.count
                + if old(self).tracker.due_after(delta as int) { 1int } else { 0int },
    {
        if self.tracker.tick(delta) {
            self.tracker.record_spawn();
        }
    }

    /// Whether a frame of `delta` microseconds with this pointer sample keeps
    /// the kitty at a coordinate that can be held.
    pub fn frame_fits(&self, delta: u32, pointer: Option<Vec2>) -> (r: bool)
        requires
            self.wf(),
            pointer_in_limit(pointer),
        ensures
            r == fits(self.next_x(delta as int, pointer)),
    {
        let target: i64 = match pointer {
            Some(p) => p.x,
            None => self.target_x,
        };
        let x = eased_wide(self.position.x, target, delta, EASE_RATE);
        -(COORD_LIMIT as i128) <= x && x <= COORD_LIMIT as i128
    }

    /// A pointer sample sets the target to the pointer's world abscissa, with
    /// no clamping; without one the target stays. The kitty's abscissa then
    /// eases toward it; its height stays.
    pub fn mover(&mut self, delta: u32, pointer: Option<Vec2>)
        requires
            old(self).wf(),
            pointer_in_limit(pointer),
            fits(old(self).next_x(delta as int, pointer)),
        ensures
            final(self).wf(),
            final(self).tracker == old(self).tracker,
            final(self).position.y == old(self).position.y,
            final(self).target_x == old(self).next_target(pointer),
            final(self).position.x == old(self).next_x(delta as int, pointer),
    {
        if let Some(p) = pointer {
            self.target_x = p.x;
        }
        self.position.x = ease_toward(self.position.x, self.target_x, delta, EASE_RATE);
    }
}

} // verus!
