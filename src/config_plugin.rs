use vstd::prelude::*;

use crate::geometry::{trunc_div, div_toward_zero, Vec2, UNIT};

verus! {

/// Width of the playfield over its height is `ASPECT_WIDTH / ASPECT_HEIGHT`.
pub const ASPECT_WIDTH: i64 = 5;

pub const ASPECT_HEIGHT: i64 = 8;

/// Width of the playfield, centred on the origin.
pub const WIDTH: i64 = 90 * UNIT;

/// Height of the playfield, centred on the origin: `WIDTH * ASPECT_HEIGHT / ASPECT_WIDTH`.
pub const HEIGHT: i64 = 144 * UNIT;

/// Half the playfield's width: the right wall's abscissa.
pub const HALF_WIDTH: i64 = 45 * UNIT;

/// Half the playfield's height: the top wall's ordinate.
pub const HALF_HEIGHT: i64 = 72 * UNIT;

/// Largest magnitude of an entry of a camera's linear part (per mille).
pub const CAMERA_MATRIX_LIMIT: i64 = 1_000_000;

/// Largest magnitude of a camera's translation.
pub const CAMERA_TRANSLATION_LIMIT: i64 = 1_000_000_000_000;

/// Every world coordinate that the pointer can map to lies within this bound.
pub const COORD_LIMIT: i64 = 2_000_000_000_000;

/// The camera's world transform as a point transform: a linear part
/// (rotation and scale, entries per mille) followed by a translation.
#[derive(Clone, Copy, Debug, PartialEq, Eq, Structural)]
pub struct CameraTransform {
    pub m00: i64,
    pub m01: i64,
    pub m10: i64,
    pub m11: i64,
    pub translation: Vec2,
}

/// A pointer position in device pixels, origin at the bottom left, y up.
#[derive(Clone, Copy, Debug, PartialEq, Eq, Structural)]
pub struct PixelPos {
    pub x: u32,
    pub y: u32,
}

/// The size of the viewport in device pixels.
#[derive(Clone, Copy, Debug, PartialEq, Eq, Structural)]
pub struct Viewport {
    pub width: u32,
    pub height: u32,
}

impl CameraTransform {
    pub open spec fn wf(self) -> bool {
        -CAMERA_MATRIX_LIMIT <= self.m00 <= CAMERA_MATRIX_LIMIT
        && -CAMERA_MATRIX_LIMIT <= self.m01 <= CAMERA_MATRIX_LIMIT
        && -CAMERA_MATRIX_LIMIT <= self.m10 <= CAMERA_MATRIX_LIMIT
        && -CAMERA_MATRIX_LIMIT <= self.m11 <= CAMERA_MATRIX_LIMIT
        && -CAMERA_TRANSLATION_LIMIT <= self.translation.x <= CAMERA_TRANSLATION_LIMIT
        && -CAMERA_TRANSLATION_LIMIT <= self.translation.y <= CAMERA_TRANSLATION_LIMIT
    }

    /// The transform applied to a point.
    pub open spec fn apply(self, x: int, y: int) -> (int, int) {
        (
            trunc_div(self.m00 * x + self.m01 * y, UNIT as int) + self.translation.x,
            trunc_div(self.m10 * x + self.m11 * y, UNIT as int) + self.translation.y,
        )
    }

    /// A camera centred on the origin, unrotated and unscaled.
    pub fn identity() -> (r: CameraTransform)
        ensures
            r.wf(),
            r.m00 == UNIT && r.m11 == UNIT && r.m01 == 0 && r.m10 == 0,
            r.translation == Vec2::new_spec(0, 0),
    {
        CameraTransform { m00: UNIT, m01: 0, m10: 0, m11: UNIT, translation: Vec2 { x: 0, y: 0 } }
    }
}

impl Viewport {
    pub open spec fn wf(self) -> bool {
        self.width > 0 && self.height > 0
    }

    /// The pointer lies on the viewport.
    pub open spec fn contains(self, p: PixelPos) -> bool {
        p.x <= self.width && p.y <= self.height
    }
}

/// The pointer position rescaled to the playfield, before the camera.
pub open spec fn field_offset(p: int, size: int, extent: int) -> int {
    p * extent / size - extent / 2
}

/// Where a pointer sample lands in the world.
pub open spec fn world_position(raw: PixelPos, window: Viewport, camera: CameraTransform) -> Vec2 {
    let (x, y) = camera.apply(
        field_offset(raw.x as int, window.width as int, WIDTH as int),
        field_offset(raw.y as int, window.height as int, HEIGHT as int),
    );
    Vec2::new_spec(x as i64, y as i64)
}

proof fn lemma_field_offset_bounds(p: int, size: int, extent: int)
    requires
        0 <= p <= size,
        size > 0,
        extent >= 0,
    ensures
        -(extent / 2) <= field_offset(p, size, extent) <= extent - extent / 2,
{
    assert(0 <= p * extent / size <= extent) by (nonlinear_arith)
        requires 0 <= p <= size, size > 0, extent >= 0;
}

proof fn lemma_apply_bounds(camera: CameraTransform, x: int, y: int)
    requires
        camera.wf(),
        -(HEIGHT as int) <= x <= HEIGHT,
        -(HEIGHT as int) <= y <= HEIGHT,
    ensures
        -COORD_LIMIT <= camera.apply(x, y).0 <= COORD_LIMIT,
        -COORD_LIMIT <= camera.apply(x, y).1 <= COORD_LIMIT,
{
    let b = CAMERA_MATRIX_LIMIT * HEIGHT * 2;
    assert(-b <= camera.m00 * x + camera.m01 * y <= b) by (nonlinear_arith)
        requires
            -CAMERA_MATRIX_LIMIT <= camera.m00 <= CAMERA_MATRIX_LIMIT,
            -CAMERA_MATRIX_LIMIT <= camera.m01 <= CAMERA_MATRIX_LIMIT,
            -(HEIGHT as int) <= x <= HEIGHT,
            -(HEIGHT as int) <= y <= HEIGHT,
            b == CAMERA_MATRIX_LIMIT * HEIGHT * 2;
    assert(-b <= camera.m10 * x + camera.m11 * y <= b) by (nonlinear_arith)
        requires
            -CAMERA_MATRIX_LIMIT <= camera.m10 <= CAMERA_MATRIX_LIMIT,
            -CAMERA_MATRIX_LIMIT <= camera.m11 <= CAMERA_MATRIX_LIMIT,
            -(HEIGHT as int) <= x <= HEIGHT,
            -(HEIGHT as int) <= y <= HEIGHT,
            b == CAMERA_MATRIX_LIMIT * HEIGHT * 2;
    crate::geometry::lemma_trunc_div_bounds(camera.m00 * x + camera.m01 * y, UNIT as int, b / UNIT as int);
    crate::geometry::lemma_trunc_div_bounds(camera.m10 * x + camera.m11 * y, UNIT as int, b / UNIT as int);
}

proof fn lemma_mul_bound(m: int, x: int)
    requires
        -CAMERA_MATRIX_LIMIT <= m <= CAMERA_MATRIX_LIMIT,
        -(HEIGHT as int) <= x <= HEIGHT,
    ensures
        -CAMERA_MATRIX_LIMIT * HEIGHT <= m * x <= CAMERA_MATRIX_LIMIT * HEIGHT,
{
    assert(-CAMERA_MATRIX_LIMIT * HEIGHT <= m * x <= CAMERA_MATRIX_LIMIT * HEIGHT) by (nonlinear_arith)
        requires
            -CAMERA_MATRIX_LIMIT <= m <= CAMERA_MATRIX_LIMIT,
            -(HEIGHT as int) <= x <= HEIGHT;
}

/// Maps a pointer sample in device pixels to world space: the pointer is
/// normalised by the viewport, scaled to the playfield, re-centred on the
/// origin, and then carried through the camera's transform.
pub fn get_world_position(
    raw_position: PixelPos,
    window: Viewport,
    camera_transform: &CameraTransform,
) -> (r: Vec2)
    requires
        window.wf(),
        window.contains(raw_position),
        camera_transform.wf(),
    ensures
        r == world_position(raw_position, window, *camera_transform),
        -COORD_LIMIT <= r.x <= COORD_LIMIT,
        -COORD_LIMIT <= r.y <= COORD_LIMIT,
{
    let c = camera_transform;
    proof {
        lemma_field_offset_bounds(raw_position.x as int, window.width as int, WIDTH as int);
        lemma_field_offset_bounds(raw_position.y as int, window.height as int, HEIGHT as int);
    }
    let ax: i64 = (raw_position.x as i64) * WIDTH / (window.width as i64) - WIDTH / 2;
    let ay: i64 = (raw_position.y as i64) * HEIGHT / (window.height as i64) - HEIGHT / 2;
    proof {
        lemma_apply_bounds(*c, ax as int, ay as int);
        lemma_mul_bound(c.m00 as int, ax as int);
        lemma_mul_bound(c.m01 as int, ay as int);
        lemma_mul_bound(c.m10 as int, ax as int);
        lemma_mul_bound(c.m11 as int, ay as int);
    }
    let x = div_toward_zero(c.m00 * ax + c.m01 * ay, UNIT) + c.translation.x;
    let y = div_toward_zero(c.m10 * ax + c.m11 * ay, UNIT) + c.translation.y;
    Vec2 { x, y }
}

/// Pure: the same pointer sample, viewport and camera always map to the same
/// world position.
pub proof fn lemma_world_position_deterministic(
    raw_position: PixelPos,
    window: Viewport,
    camera_transform: CameraTransform,
    first: Vec2,
    second: Vec2,
)
    requires
        first == world_position(raw_position, window, camera_transform),
        second == world_position(raw_position, window, camera_transform),
    ensures
        first == second,
{
}

} // verus!
