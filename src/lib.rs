//! A small arcade playfield: bouncing yarn balls, destructible tuna blocks, a
//! pointer-driven paddle and a cursor-following kitty, simulated on
//! fixed-point integers.
//!
//! Lengths are in milli-units of the world (1000 per world unit), frame times
//! in microseconds, and directions in per-mille of unit length.

pub mod collide;
pub mod config_plugin;
pub mod game;
pub mod geometry;
pub mod kitty_plugin;
pub mod paddle_plugin;
pub mod random;
pub mod spawner;
pub mod yarn_plugin;

pub use crate::geometry::{div_toward_zero, isqrt, Vec2};
pub use crate::config_plugin::{
    get_world_position, world_position, lemma_world_position_deterministic, CameraTransform,
    PixelPos, Viewport, ASPECT_HEIGHT, ASPECT_WIDTH, COORD_LIMIT, HEIGHT, WIDTH,
};
pub use crate::collide::{collide, collision_of, Collision};
pub use crate::spawner::{RepeatingTimer, Spawner};
pub use crate::paddle_plugin::{ease_toward, eased, fits, EASE_RATE, clamp_target, clamped_target, PaddlePlugin, PADDLE_MIN_X, PADDLE_MAX_X, PADDLE_Y};
pub use crate::kitty_plugin::{KittyPlugin, KITTY_Y};
pub use crate::yarn_plugin::{direction, move_yarn, wall_check, Collider, Yarn, YarnPlugin};
pub use crate::game::{FrameInput, GamePlugin, GameState, Playfield};
pub use crate::random::{draw_offset, settle_offset};
