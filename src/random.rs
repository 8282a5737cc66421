use rand::Rng;
use vstd::prelude::*;

use crate::geometry::Vec2;
use crate::yarn_plugin::{offset_ok, OFFSET_RANGE};

verus! {

/// Draws are repeated at most this many times while they come out zero.
pub const MAX_DRAWS: u32 = 16;

/// Relies on `rand::thread_rng` and `Rng::gen_range` on an inclusive range:
/// the value drawn lies in the range (it panics only on an empty one).
#[verifier::external_body]
fn random_in(low: i64, high: i64) -> (r: i64)
    requires
        low <= high,
    ensures
        low <= r <= high,
{
    rand::thread_rng().gen_range(low..=high)
}

/// Where a fresh draw comes out zero, which has no direction, this stands
/// for it.
pub const FALLBACK_OFFSET: i64 = OFFSET_RANGE;

/// The offset to use for a draw: the draw itself unless it is zero, else
/// straight up.
pub fn settle_offset(o: Vec2) -> (r: Vec2)
    requires
        offset_ok(o),
    ensures
        (o.x != 0 || o.y != 0) ==> r == o,
        (o.x == 0 && o.y == 0) ==> r == Vec2::new_spec(0, FALLBACK_OFFSET),
        offset_ok(r),
        r.x != 0 || r.y != 0,
{
    if o.x == 0 && o.y == 0 {
        Vec2 { x: 0, y: FALLBACK_OFFSET }
    } else {
        o
    }
}

/// Draws a spawn offset uniformly from the square of side
/// `2 * OFFSET_RANGE`, drawing again while it comes out zero, up to
/// `MAX_DRAWS` draws; after that many zeros in a row it settles on straight
/// up.
pub fn draw_offset() -> (r: Vec2)
    ensures
        offset_ok(r),
        r.x != 0 || r.y != 0,
{
    let mut o = Vec2 { x: random_in(-OFFSET_RANGE, OFFSET_RANGE), y: random_in(-OFFSET_RANGE, OFFSET_RANGE) };
    let mut draws: u32 = 1;
    while o.x == 0 && o.y == 0 && draws < MAX_DRAWS
        invariant
            offset_ok(o),
            1 <= draws <= MAX_DRAWS,
        decreases MAX_DRAWS - draws,
    {
        o = Vec2 { x: random_in(-OFFSET_RANGE, OFFSET_RANGE), y: random_in(-OFFSET_RANGE, OFFSET_RANGE) };
        draws = draws + 1;
    }
    settle_offset(o)
}

} // verus!
