use vstd::prelude::*;

use crate::geometry::Vec2;

verus! {

/// Largest magnitude of a box's centre or size accepted by the overlap test.
pub const BOX_LIMIT: i64 = 1_000_000_000_000_000;

/// Which side of the second box the first one struck.
#[derive(Clone, Copy, Debug, PartialEq, Eq, Structural)]
pub enum Collision {
    Left,
    Right,
    Top,
    Bottom,
    Inside,
}

/// Twice the low edge of a box along one axis, from its centre and full size.
pub open spec fn low2(center: int, size: int) -> int {
    2 * center - size
}

/// Twice the high edge of a box along one axis.
pub open spec fn high2(center: int, size: int) -> int {
    2 * center + size
}

/// The two intervals along one axis overlap, edges excluded.
pub open spec fn spans_overlap(ac: int, asz: int, bc: int, bsz: int) -> bool {
    low2(ac, asz) < high2(bc, bsz) && high2(ac, asz) > low2(bc, bsz)
}

/// The first interval enters the second across its low edge.
pub open spec fn enters_low(ac: int, asz: int, bc: int, bsz: int) -> bool {
    low2(ac, asz) < low2(bc, bsz) && high2(ac, asz) > low2(bc, bsz) && high2(ac, asz) < high2(bc, bsz)
}

/// The first interval enters the second across its high edge.
pub open spec fn enters_high(ac: int, asz: int, bc: int, bsz: int) -> bool {
    low2(ac, asz) > low2(bc, bsz) && low2(ac, asz) < high2(bc, bsz) && high2(ac, asz) > high2(bc, bsz)
}

/// How deep (doubled) the first interval reaches into the second across the
/// edge it entered by; meaningful only where it entered by one.
pub open spec fn depth2(ac: int, asz: int, bc: int, bsz: int) -> int {
    if enters_low(ac, asz, bc, bsz) {
        high2(ac, asz) - low2(bc, bsz)
    } else {
        high2(bc, bsz) - low2(ac, asz)
    }
}

pub open spec fn x_side(a_pos: Vec2, a_size: Vec2, b_pos: Vec2, b_size: Vec2) -> Collision {
    if enters_low(a_pos.x as int, a_size.x as int, b_pos.x as int, b_size.x as int) {
        Collision::Left
    } else if enters_high(a_pos.x as int, a_size.x as int, b_pos.x as int, b_size.x as int) {
        Collision::Right
    } else {
        Collision::Inside
    }
}

pub open spec fn y_side(a_pos: Vec2, a_size: Vec2, b_pos: Vec2, b_size: Vec2) -> Collision {
    if enters_low(a_pos.y as int, a_size.y as int, b_pos.y as int, b_size.y as int) {
        Collision::Bottom
    } else if enters_high(a_pos.y as int, a_size.y as int, b_pos.y as int, b_size.y as int) {
        Collision::Top
    } else {
        Collision::Inside
    }
}

/// The boxes overlap (touching edges do not count).
pub open spec fn boxes_overlap(a_pos: Vec2, a_size: Vec2, b_pos: Vec2, b_size: Vec2) -> bool {
    spans_overlap(a_pos.x as int, a_size.x as int, b_pos.x as int, b_size.x as int)
    && spans_overlap(a_pos.y as int, a_size.y as int, b_pos.y as int, b_size.y as int)
}

/// The side by which box `a` struck box `b`, if they overlap: the vertical
/// side where `a` entered by one and reaches less deep through it than
/// through the horizontal side, else the horizontal side (or `Inside`).
pub open spec fn collision_of(a_pos: Vec2, a_size: Vec2, b_pos: Vec2, b_size: Vec2) -> Option<Collision> {
    if !boxes_overlap(a_pos, a_size, b_pos, b_size) {
        None
    } else {
        let xs = x_side(a_pos, a_size, b_pos, b_size);
        let ys = y_side(a_pos, a_size, b_pos, b_size);
        let xd = depth2(a_pos.x as int, a_size.x as int, b_pos.x as int, b_size.x as int);
        let yd = depth2(a_pos.y as int, a_size.y as int, b_pos.y as int, b_size.y as int);
        if ys != Collision::Inside && (xs == Collision::Inside || yd < xd) {
            Some(ys)
        } else {
            Some(xs)
        }
    }
}

pub open spec fn in_box_limit(v: Vec2) -> bool {
    -BOX_LIMIT <= v.x <= BOX_LIMIT && -BOX_LIMIT <= v.y <= BOX_LIMIT
}

/// Tests two axis-aligned boxes, each given by its centre and full size, for
/// overlap, and reports the side of `b` that `a` struck.
pub fn collide(a_pos: Vec2, a_size: Vec2, b_pos: Vec2, b_size: Vec2) -> (r: Option<Collision>)
    requires
        in_box_limit(a_pos),
        in_box_limit(a_size),
        in_box_limit(b_pos),
        in_box_limit(b_size),
    ensures
        r == collision_of(a_pos, a_size, b_pos, b_size),
        r is Some <==> boxes_overlap(a_pos, a_size, b_pos, b_size),
{
    let a_min_x = 2 * a_pos.x - a_size.x;
    let a_max_x = 2 * a_pos.x + a_size.x;
    let a_min_y = 2 * a_pos.y - a_size.y;
    let a_max_y = 2 * a_pos.y + a_size.y;
    let b_min_x = 2 * b_pos.x - b_size.x;
    let b_max_x = 2 * b_pos.x + b_size.x;
    let b_min_y = 2 * b_pos.y - b_size.y;
    let b_max_y = 2 * b_pos.y + b_size.y;

    if a_min_x < b_max_x && a_max_x > b_min_x && a_min_y < b_max_y && a_max_y > b_min_y {
        // `None` stands for an unbounded depth: `a` entered by no edge.
        let (x_collision, x_depth) = if a_min_x < b_min_x && a_max_x > b_min_x && a_max_x < b_max_x {
            (Collision::Left, Some(a_max_x - b_min_x))
        } else if a_min_x > b_min_x && a_min_x < b_max_x && a_max_x > b_max_x {
            (Collision::Right, Some(b_max_x - a_min_x))
        } else {
            (Collision::Inside, None)
        };
        let (y_collision, y_depth) = if a_min_y < b_min_y && a_max_y > b_min_y && a_max_y < b_max_y {
            (Collision::Bottom, Some(a_max_y - b_min_y))
        } else if a_min_y > b_min_y && a_min_y < b_max_y && a_max_y > b_max_y {
            (Collision::Top, Some(b_max_y - a_min_y))
        } else {
            (Collision::Inside, None)
        };
        let y_first = match (y_depth, x_depth) {
            (Some(yd), Some(xd)) => yd < xd,
            (Some(_), None) => true,
            (None, _) => false,
        };
        if y_first {
            Some(y_collision)
        } else {
            Some(x_collision)
        }
    } else {
        None
    }
}

} // verus!
