use vstd::prelude::*;

use crate::config_plugin::{get_world_position, world_position, CameraTransform, PixelPos, Viewport};
use crate::geometry::Vec2;
use crate::kitty_plugin::{pointer_in_limit, KittyPlugin, KITTY_SPAWN_PERIOD, KITTY_Y};
use crate::paddle_plugin::{fits, PaddlePlugin};
use crate::random::draw_offset;
use crate::yarn_plugin::{frame_tunas, frame_yarns, offset_ok, YarnPlugin, YARN_SPAWN_PERIOD};

verus! {

/// The game's progression: assets loading, then play.
#[derive(Clone, Copy, Debug, PartialEq, Eq, Structural)]
pub enum GameState {
    Load,
    Play,
}

/// Everything that exists while playing.
#[derive(Debug)]
pub struct Playfield {
    pub paddle: PaddlePlugin,
    pub kitty: KittyPlugin,
    pub yarn: YarnPlugin,
}

impl Playfield {
    pub open spec fn wf(&self) -> bool {
        self.paddle.wf() && self.kitty.wf() && self.yarn.wf()
    }
}

/// The whole game: nothing exists while loading; entering play creates the
/// paddle, the kitty and the yarns' world.
#[derive(Debug)]
pub struct GamePlugin {
    pub field: Option<Playfield>,
}

/// One frame's input: its length in microseconds, the pointer sample if there
/// is one, the viewport and the camera.
#[derive(Clone, Copy, Debug, PartialEq, Eq, Structural)]
pub struct FrameInput {
    pub delta: u32,
    pub pointer: Option<PixelPos>,
    pub window: Viewport,
    pub camera: CameraTransform,
}

impl FrameInput {
    pub open spec fn wf(self) -> bool {
        &&& self.window.wf()
        &&& self.camera.wf()
        &&& (self.pointer matches Some(p) ==> self.window.contains(p))
    }

    /// The pointer sample in world space.
    pub open spec fn world_pointer(self) -> Option<Vec2> {
        match self.pointer {
            Some(p) => Some(world_position(p, self.window, self.camera)),
            None => None,
        }
    }
}

impl GamePlugin {
    pub open spec fn wf(&self) -> bool {
        self.field matches Some(f) ==> f.wf()
    }

    pub open spec fn state_spec(&self) -> GameState {
        if self.field is Some { GameState::Play } else { GameState::Load }
    }

    /// A game that is loading.
    pub fn new() -> (r: GamePlugin)
        ensures
            r.wf(),
            r.state_spec() == GameState::Load,
    {
        GamePlugin { field: None }
    }

    pub fn state(&self) -> (r: GameState)
        ensures
            r == self.state_spec(),
    {
        if self.field.is_some() { GameState::Play } else { GameState::Load }
    }

    /// The assets are ready: a loading game enters play, with everything set
    /// up; a game in play is left as it is.
    pub fn assets_ready(&mut self)
        requires
            old(self).wf(),
        ensures
            final(self).wf(),
            final(self).state_spec() == GameState::Play,
            old(self).state_spec() == GameState::Play ==> final(self).field == old(self).field,
            old(self).state_spec() == GameState::Load ==> ({
                let f = final(self).field->0;
                &&& f.paddle.x == 0
                &&& f.paddle.target_position == 0
                &&& f.kitty.position == Vec2::new_spec(0, KITTY_Y)
                &&& f.kitty.target_x == 0
                &&& f.kitty.tracker.count == 0
                &&& f.kitty.tracker.timer.period == KITTY_SPAWN_PERIOD
                &&& f.kitty.tracker.timer.elapsed == 0
                &&& f.yarn.tracker.timer.period == YARN_SPAWN_PERIOD
                &&& f.yarn.yarns@.len() == 0
                &&& f.yarn.tunas@ == crate::yarn_plugin::tuna_grid()
                &&& f.yarn.tracker.count == 0
                &&& f.yarn.tracker.timer.elapsed == 0
            }),
    {
        if self.field.is_none() {
            self.field = Some(Playfield {
                paddle: PaddlePlugin::setup(),
                kitty: KittyPlugin::setup(),
                yarn: YarnPlugin::setup(),
            });
        }
    }

    /// A frame keeps the paddle and the kitty at coordinates that can be
    /// held. Easing by the exact law overshoots on frames longer than a
    /// tenth of a second, and frame after frame of that drives them apart
    /// without bound.
    pub open spec fn frame_fits_spec(&self, input: FrameInput) -> bool {
        self.field matches Some(f) ==> {
            &&& fits(f.paddle.next_x(input.delta as int, input.world_pointer()))
            &&& fits(f.kitty.next_x(input.delta as int, input.world_pointer()))
        }
    }

    /// Whether `tick` and `step` can take this frame.
    pub fn frame_fits(&self, input: FrameInput) -> (r: bool)
        requires
            self.wf(),
            input.wf(),
        ensures
            r == self.frame_fits_spec(input),
    {
        match &self.field {
            None => true,
            Some(f) => {
                let wp = map_pointer(&input);
                f.paddle.frame_fits(input.delta, wp) && f.kitty.frame_fits(input.delta, wp)
            },
        }
    }

    /// One frame. While loading nothing happens. In play, in order: the
    /// pointer sample is mapped to the world once; the paddle and the kitty
    /// follow it; then the yarns' world runs its frame against the paddle,
    /// with `offset` as the heading of a yarn spawned in it.
    pub fn tick(&mut self, input: FrameInput, offset: Vec2)
        requires
            old(self).wf(),
            input.wf(),
            offset_ok(offset),
            old(self).frame_fits_spec(input),
        ensures
            final(self).wf(),
            final(self).state_spec() == old(self).state_spec(),
            old(self).field is Some ==> ({
                let f0 = old(self).field->0;
                let f1 = final(self).field->0;
                let d = input.delta as int;
                let wp = input.world_pointer();
                let due = f0.yarn.tracker.due_after(d);
                &&& f1.paddle.target_position == f0.paddle.next_target(wp)
                &&& f1.paddle.x == f0.paddle.next_x(d, wp)
                &&& f1.kitty.target_x == f0.kitty.next_target(wp)
                &&& f1.kitty.position.x == f0.kitty.next_x(d, wp)
                &&& f1.kitty.position.y == f0.kitty.position.y
                &&& f1.kitty.tracker.count == f0.kitty.tracker.count + if f0.kitty.tracker.due_after(d) { 1int } else { 0int }
                &&& f1.kitty.tracker.timer.period == f0.kitty.tracker.timer.period
                &&& f1.kitty.tracker.timer.elapsed == f0.kitty.tracker.timer.elapsed_after(d)
                &&& f1.yarn.tracker.timer.period == f0.yarn.tracker.timer.period
                &&& f1.yarn.tracker.timer.elapsed == f0.yarn.tracker.timer.elapsed_after(d)
                &&& f1.yarn.tracker.count == f1.yarn.yarns@.len()
                &&& f1.yarn.yarns@ == frame_yarns(f0.yarn.yarns@, f0.yarn.tunas@, due, d, offset, f1.paddle.x)
                &&& f1.yarn.tunas@ == frame_tunas(f0.yarn.yarns@, f0.yarn.tunas@, due, d, offset)
            }),
    {
        match self.field.take() {
            None => {},
            Some(mut f) => {
                let pointer = map_pointer(&input);
                f.paddle.movement_system(input.delta, pointer);
                f.kitty.spawner(input.delta);
                f.kitty.mover(input.delta, pointer);
                f.yarn.update(input.delta, offset, f.paddle.x);
                self.field = Some(f);
            },
        }
    }

    /// One frame, with a freshly drawn heading for a yarn spawned in it:
    /// everything `tick` states, for some non-zero offset within range.
    pub fn step(&mut self, input: FrameInput)
        requires
            old(self).wf(),
            input.wf(),
            old(self).frame_fits_spec(input),
        ensures
            final(self).wf(),
            final(self).state_spec() == old(self).state_spec(),
            old(self).field is Some ==> ({
                let f0 = old(self).field->0;
                let f1 = final(self).field->0;
                let d = input.delta as int;
                let wp = input.world_pointer();
                let due = f0.yarn.tracker.due_after(d);
                &&& f1.paddle.target_position == f0.paddle.next_target(wp)
                &&& f1.paddle.x == f0.paddle.next_x(d, wp)
                &&& f1.kitty.target_x == f0.kitty.next_target(wp)
                &&& f1.kitty.position.x == f0.kitty.next_x(d, wp)
                &&& f1.kitty.position.y == f0.kitty.position.y
                &&& f1.kitty.tracker.count == f0.kitty.tracker.count + if f0.kitty.tracker.due_after(d) { 1int } else { 0int }
                &&& f1.kitty.tracker.timer.period == f0.kitty.tracker.timer.period
                &&& f1.kitty.tracker.timer.elapsed == f0.kitty.tracker.timer.elapsed_after(d)
                &&& f1.yarn.tracker.timer.period == f0.yarn.tracker.timer.period
                &&& f1.yarn.tracker.timer.elapsed == f0.yarn.tracker.timer.elapsed_after(d)
                &&& f1.yarn.tracker.count == f1.yarn.yarns@.len()
                &&& exists|offset: Vec2| offset_ok(offset) && (offset.x != 0 || offset.y != 0)
                    && f1.yarn.yarns@ == frame_yarns(f0.yarn.yarns@, f0.yarn.tunas@, due, d, offset, f1.paddle.x)
                    && f1.yarn.tunas@ == frame_tunas(f0.yarn.yarns@, f0.yarn.tunas@, due, d, offset)
            }),
    {
        let offset = draw_offset();
        self.tick(input, offset);
    }
}

/// The frame's pointer sample in world space.
fn map_pointer(input: &FrameInput) -> (r: Option<Vec2>)
    requires
        input.wf(),
    ensures
        r == input.world_pointer(),
        pointer_in_limit(r),
{
    match input.pointer {
        Some(p) => Some(get_world_position(p, input.window, &input.camera)),
        None => None,
    }
}

} // verus!
