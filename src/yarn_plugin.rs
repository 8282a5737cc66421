use vstd::prelude::*;

use crate::collide::{collide, collision_of, Collision};
use crate::config_plugin::{COORD_LIMIT, HALF_HEIGHT, HALF_WIDTH};
use crate::geometry::{div_toward_zero, is_isqrt, isqrt, trunc_div, Vec2, MICROS_PER_SECOND, UNIT};
use crate::paddle_plugin::{PADDLE_HEIGHT, PADDLE_WIDTH, PADDLE_Y};
use crate::spawner::Spawner;

verus! {

/// World units a yarn covers per second along its unit direction.
pub const YARN_SPEED: i64 = 20;

/// Side of a yarn's square box.
pub const YARN_SIZE: i64 = 10 * UNIT;

/// Half of `YARN_SIZE`: a yarn bounces when its edge, not its centre, meets a wall.
pub const YARN_HALF: i64 = 5 * UNIT;

pub const TUNA_WIDTH: i64 = 20 * UNIT;

pub const TUNA_HEIGHT: i64 = 10 * UNIT;

/// Boxes are shrunk to this percentage of their size before the overlap
/// test, so that grazing contacts do not count.
pub const HIT_PERCENT: i64 = 95;

/// At most this many yarns are in play at once.
pub const YARN_CAP: u8 = 3;

/// Period of the yarn spawn timer, in microseconds.
pub const YARN_SPAWN_PERIOD: u64 = 3_000_000;

/// A spawn offset has each component in `[-OFFSET_RANGE, OFFSET_RANGE]`.
pub const OFFSET_RANGE: i64 = 500;

/// A spawn direction has squared length within rounding of this.
pub const DIRECTION_UNIT_SQ: i64 = 1_000_000;

/// Each component of a yarn's velocity stays within this.
pub const VELOCITY_LIMIT: i64 = 1002;

/// No yarn moves farther than this along an axis in one frame.
pub const MAX_STEP: i64 = 87_000_000;

/// Anything a yarn can strike lies within this abscissa of the centre: the
/// walls, and the paddle at any coordinate it can hold, plus its reach.
pub const REACH_X: i64 = COORD_LIMIT + 100 * UNIT;

/// A bouncing yarn: its centre and its velocity, a direction with
/// components per mille of unit length.
#[derive(Clone, Copy, Debug, PartialEq, Eq, Structural)]
pub struct Yarn {
    pub position: Vec2,
    pub velocity: Vec2,
}

/// An axis-aligned box that yarns bounce off: its centre and full size.
#[derive(Clone, Copy, Debug, PartialEq, Eq, Structural)]
pub struct Collider {
    pub center: Vec2,
    pub size: Vec2,
}

pub open spec fn abs(v: int) -> int {
    if v < 0 { -v } else { v }
}

/// The centre lies where something can be struck.
pub open spec fn in_reach(p: Vec2) -> bool {
    -REACH_X <= p.x <= REACH_X && -HALF_HEIGHT <= p.y <= HALF_HEIGHT
}

/// The centre lies within one frame's travel of where something can be struck.
pub open spec fn near_field(p: Vec2) -> bool {
    -REACH_X - MAX_STEP <= p.x <= REACH_X + MAX_STEP
    && -HALF_HEIGHT - MAX_STEP <= p.y <= HALF_HEIGHT + MAX_STEP
}

/// Each component of the velocity is at most about one unit.
pub open spec fn velocity_ok(v: Vec2) -> bool {
    -VELOCITY_LIMIT <= v.x <= VELOCITY_LIMIT && -VELOCITY_LIMIT <= v.y <= VELOCITY_LIMIT
}

/// Beyond the reach of everything, the yarn is not moving farther out.
pub open spec fn heading_in(y: Yarn) -> bool {
    (y.position.x <= REACH_X || y.velocity.x <= 0)
    && (y.position.x >= -REACH_X || y.velocity.x >= 0)
    && (y.position.y <= HALF_HEIGHT || y.velocity.y <= 0)
    && (y.position.y >= -HALF_HEIGHT || y.velocity.y >= 0)
}

impl Yarn {
    /// What holds of a yarn between two frames.
    pub open spec fn settled(self) -> bool {
        velocity_ok(self.velocity) && near_field(self.position) && heading_in(self)
    }

    /// What holds of a yarn after it moved and before the walls are checked.
    pub open spec fn moved_ok(self) -> bool {
        velocity_ok(self.velocity) && near_field(self.position)
    }
}

/// Travel along one axis in `delta` microseconds at velocity component `v`.
pub open spec fn step(v: int, delta: int) -> int {
    trunc_div(v * YARN_SPEED * delta, MICROS_PER_SECOND as int)
}

/// The yarn after `delta` microseconds of motion.
pub open spec fn moved(y: Yarn, delta: int) -> Yarn {
    Yarn {
        position: Vec2::new_spec(
            (y.position.x + step(y.velocity.x as int, delta)) as i64,
            (y.position.y + step(y.velocity.y as int, delta)) as i64,
        ),
        velocity: y.velocity,
    }
}

/// The yarn crossed the bottom wall moving down: it leaves play.
pub open spec fn exits_bottom(y: Yarn) -> bool {
    y.position.y < -HALF_HEIGHT + YARN_HALF && y.velocity.y < 0
}

/// The yarn after the left, right and top walls are checked in turn; each
/// reverses one component of the velocity of a yarn whose edge is past it
/// and that is not already moving away.
pub open spec fn wall_reflected(y: Yarn) -> Yarn {
    let vx1 = if y.position.x < -HALF_WIDTH + YARN_HALF && y.velocity.x < 0 {
        -y.velocity.x
    } else {
        y.velocity.x as int
    };
    let vx2 = if y.position.x > HALF_WIDTH - YARN_HALF && vx1 >= 0 { -vx1 } else { vx1 };
    let vy = if y.position.y > HALF_HEIGHT - YARN_HALF && y.velocity.y >= 0 {
        -y.velocity.y
    } else {
        y.velocity.y as int
    };
    Yarn { position: y.position, velocity: Vec2::new_spec(vx2 as i64, vy as i64) }
}

/// The yarns that stay after the walls are checked, reflected, in order.
pub open spec fn wall_pass(ys: Seq<Yarn>) -> Seq<Yarn>
    decreases ys.len(),
{
    if ys.len() == 0 {
        ys
    } else {
        let rest = wall_pass(ys.drop_last());
        if exits_bottom(ys.last()) {
            rest
        } else {
            rest.push(wall_reflected(ys.last()))
        }
    }
}

/// How many yarns leave by the bottom wall.
pub open spec fn exit_count(ys: Seq<Yarn>) -> nat
    decreases ys.len(),
{
    if ys.len() == 0 {
        0
    } else {
        exit_count(ys.drop_last()) + if exits_bottom(ys.last()) { 1nat } else { 0nat }
    }
}

proof fn lemma_wall_pass_len(ys: Seq<Yarn>)
    ensures
        wall_pass(ys).len() + exit_count(ys) == ys.len(),
    decreases ys.len(),
{
    if ys.len() > 0 {
        lemma_wall_pass_len(ys.drop_last());
    }
}

/// Moves a yarn by its velocity over `delta` microseconds.
pub fn move_yarn(y: Yarn, delta: u32) -> (r: Yarn)
    requires
        y.settled(),
    ensures
        r == moved(y, delta as int),
        r.moved_ok(),
{
    let d: i64 = delta as i64;
    proof {
        lemma_step_bounds(y.velocity.x as int, delta as int);
        lemma_step_bounds(y.velocity.y as int, delta as int);
        assert(-MAX_STEP * MICROS_PER_SECOND <= y.velocity.x * YARN_SPEED * d <= MAX_STEP * MICROS_PER_SECOND);
    }
    let sx = div_toward_zero(y.velocity.x * YARN_SPEED * d, MICROS_PER_SECOND);
    let sy = div_toward_zero(y.velocity.y * YARN_SPEED * d, MICROS_PER_SECOND);
    Yarn { position: Vec2 { x: y.position.x + sx, y: y.position.y + sy }, velocity: y.velocity }
}

proof fn lemma_step_bounds(v: int, delta: int)
    requires
        -VELOCITY_LIMIT <= v <= VELOCITY_LIMIT,
        0 <= delta < 0x1_0000_0000,
    ensures
        -MAX_STEP * MICROS_PER_SECOND <= v * YARN_SPEED * delta <= MAX_STEP * MICROS_PER_SECOND,
        -MAX_STEP <= step(v, delta) <= MAX_STEP,
        v <= 0 ==> step(v, delta) <= 0,
        v >= 0 ==> step(v, delta) >= 0,
{
    assert(-MAX_STEP * MICROS_PER_SECOND <= v * YARN_SPEED * delta <= MAX_STEP * MICROS_PER_SECOND) by (nonlinear_arith)
        requires -VELOCITY_LIMIT <= v <= VELOCITY_LIMIT, 0 <= delta < 0x1_0000_0000;
    assert(v <= 0 ==> v * YARN_SPEED * delta <= 0) by (nonlinear_arith)
        requires 0 <= delta;
    assert(v >= 0 ==> v * YARN_SPEED * delta >= 0) by (nonlinear_arith)
        requires 0 <= delta;
    crate::geometry::lemma_trunc_div_bounds(v * YARN_SPEED * delta, MICROS_PER_SECOND as int, MAX_STEP as int);
}

/// Checks a yarn against the walls: `None` when it leaves by the bottom,
/// else the yarn with its velocity reflected.
pub fn wall_check(y: Yarn) -> (r: Option<Yarn>)
    requires
        y.moved_ok(),
    ensures
        exits_bottom(y) ==> r is None,
        !exits_bottom(y) ==> r == Some(wall_reflected(y)),
        r matches Some(z) ==> z.settled(),
{
    let mut v = y.velocity;
    let p = y.position;
    if p.x < -HALF_WIDTH + YARN_HALF && v.x < 0 {
        v.x = -v.x;
    }
    if p.x > HALF_WIDTH - YARN_HALF && v.x >= 0 {
        v.x = -v.x;
    }
    if p.y > HALF_HEIGHT - YARN_HALF && v.y >= 0 {
        v.y = -v.y;
    }
    if p.y < -HALF_HEIGHT + YARN_HALF && v.y < 0 {
        None
    } else {
        Some(Yarn { position: p, velocity: v })
    }
}

/// A box shrunk to `HIT_PERCENT` of its size, for the overlap test.
pub open spec fn hit_size(s: Vec2) -> Vec2 {
    Vec2::new_spec((s.x * HIT_PERCENT / 100) as i64, (s.y * HIT_PERCENT / 100) as i64)
}

pub open spec fn yarn_size() -> Vec2 {
    Vec2::new_spec(YARN_SIZE, YARN_SIZE)
}

/// The side of `b` that a yarn centred at `pos` strikes, if any.
pub open spec fn hit_of(pos: Vec2, b: Collider) -> Option<Collision> {
    collision_of(pos, hit_size(yarn_size()), b.center, hit_size(b.size))
}

/// The velocity after a strike: the component toward the struck side is
/// reversed if the yarn still moves toward it.
pub open spec fn bounce(v: Vec2, c: Option<Collision>) -> Vec2 {
    match c {
        Some(Collision::Left) => if v.x > 0 { Vec2::new_spec(-v.x as i64, v.y) } else { v },
        Some(Collision::Right) => if v.x <= 0 { Vec2::new_spec(-v.x as i64, v.y) } else { v },
        Some(Collision::Bottom) => if v.y > 0 { Vec2::new_spec(v.x, -v.y as i64) } else { v },
        Some(Collision::Top) => if v.y <= 0 { Vec2::new_spec(v.x, -v.y as i64) } else { v },
        _ => v,
    }
}

/// The velocity of a yarn centred at `pos` after it is tested against each
/// box in turn.
pub open spec fn bounced_by(pos: Vec2, v: Vec2, boxes: Seq<Collider>) -> Vec2
    decreases boxes.len(),
{
    if boxes.len() == 0 {
        v
    } else {
        bounce(bounced_by(pos, v, boxes.drop_last()), hit_of(pos, boxes.last()))
    }
}

pub open spec fn tuna_box(t: Vec2) -> Collider {
    Collider { center: t, size: Vec2::new_spec(TUNA_WIDTH, TUNA_HEIGHT) }
}

pub open spec fn paddle_box(x: i64) -> Collider {
    Collider { center: Vec2::new_spec(x, PADDLE_Y), size: Vec2::new_spec(PADDLE_WIDTH, PADDLE_HEIGHT) }
}

/// Everything a yarn can bounce off: the tuna blocks in order, then the paddle.
pub open spec fn boxes_of(tunas: Seq<Vec2>, paddle_x: i64) -> Seq<Collider> {
    tunas.map_values(|t: Vec2| tuna_box(t)).push(paddle_box(paddle_x))
}

/// Some yarn strikes the tuna block centred at `t`.
pub open spec fn struck(ys: Seq<Yarn>, t: Vec2) -> bool {
    exists|k: int| 0 <= k < ys.len() && (#[trigger] hit_of(ys[k].position, tuna_box(t))) is Some
}

/// The tuna blocks that no yarn strikes, in order.
pub open spec fn surviving(tunas: Seq<Vec2>, ys: Seq<Yarn>) -> Seq<Vec2>
    decreases tunas.len(),
{
    if tunas.len() == 0 {
        tunas
    } else {
        let rest = surviving(tunas.drop_last(), ys);
        if struck(ys, tunas.last()) {
            rest
        } else {
            rest.push(tunas.last())
        }
    }
}

/// The yarns after each is tested against every box.
pub open spec fn collided(ys: Seq<Yarn>, boxes: Seq<Collider>) -> Seq<Yarn> {
    Seq::new(
        ys.len(),
        |i: int| Yarn { position: ys[i].position, velocity: bounced_by(ys[i].position, ys[i].velocity, boxes) },
    )
}

/// Where the tuna blocks stand: the grid set up when play starts.
pub open spec fn tuna_ok(t: Vec2) -> bool {
    -22_500 <= t.x <= 22_500 && 26_000 <= t.y <= 36_000
}

/// A box that lies well inside the playfield.
pub open spec fn field_box(b: Collider) -> bool {
    (b.size == Vec2::new_spec(TUNA_WIDTH, TUNA_HEIGHT) && tuna_ok(b.center))
    || (b.size == Vec2::new_spec(PADDLE_WIDTH, PADDLE_HEIGHT) && b.center.y == PADDLE_Y
        && -COORD_LIMIT <= b.center.x <= COORD_LIMIT)
}

proof fn lemma_hit_in_field(pos: Vec2, b: Collider)
    requires
        field_box(b),
        hit_of(pos, b) is Some,
    ensures
        in_reach(pos),
{
    assert(hit_size(yarn_size()) == Vec2::new_spec(9500, 9500));
    assert(hit_size(Vec2::new_spec(TUNA_WIDTH, TUNA_HEIGHT)) == Vec2::new_spec(19000, 9500));
    assert(hit_size(Vec2::new_spec(PADDLE_WIDTH, PADDLE_HEIGHT)) == Vec2::new_spec(28500, 5700));
}

/// Reflection by any sequence of boxes reverses components only.
proof fn lemma_bounced_by(pos: Vec2, v: Vec2, boxes: Seq<Collider>)
    requires
        forall|i: int| 0 <= i < boxes.len() ==> field_box(#[trigger] boxes[i]),
        velocity_ok(v),
    ensures
        abs(bounced_by(pos, v, boxes).x as int) == abs(v.x as int),
        abs(bounced_by(pos, v, boxes).y as int) == abs(v.y as int),
        bounced_by(pos, v, boxes) == v || in_reach(pos),
    decreases boxes.len(),
{
    if boxes.len() > 0 {
        let rest = boxes.drop_last();
        assert forall|i: int| 0 <= i < rest.len() implies field_box(#[trigger] rest[i]) by {
            assert(rest[i] == boxes[i]);
        }
        lemma_bounced_by(pos, v, rest);
        if hit_of(pos, boxes.last()) is Some {
            lemma_hit_in_field(pos, boxes.last());
        }
    }
}

/// Reflection, off a wall or off a box, reverses one component of the
/// velocity at a time and so keeps the yarn's speed exactly.
pub proof fn lemma_reflection_keeps_speed(y: Yarn, boxes: Seq<Collider>)
    requires
        velocity_ok(y.velocity),
        forall|i: int| 0 <= i < boxes.len() ==> field_box(#[trigger] boxes[i]),
    ensures
        wall_reflected(y).velocity.norm_sq() == y.velocity.norm_sq(),
        bounced_by(y.position, y.velocity, boxes).norm_sq() == y.velocity.norm_sq(),
{
    lemma_bounced_by(y.position, y.velocity, boxes);
    let b = bounced_by(y.position, y.velocity, boxes);
    assert(b.x * b.x == y.velocity.x * y.velocity.x) by (nonlinear_arith)
        requires abs(b.x as int) == abs(y.velocity.x as int);
    assert(b.y * b.y == y.velocity.y * y.velocity.y) by (nonlinear_arith)
        requires abs(b.y as int) == abs(y.velocity.y as int);
    let w = wall_reflected(y);
    assert(w.velocity.x * w.velocity.x == y.velocity.x * y.velocity.x) by (nonlinear_arith)
        requires w.velocity.x == y.velocity.x || w.velocity.x == -y.velocity.x;
    assert(w.velocity.y * w.velocity.y == y.velocity.y * y.velocity.y) by (nonlinear_arith)
        requires w.velocity.y == y.velocity.y || w.velocity.y == -y.velocity.y;
}

/// The box that the overlap test uses for a box of the given size.
fn hit_box(size: Vec2) -> (r: Vec2)
    requires
        0 <= size.x <= 1_000_000_000,
        0 <= size.y <= 1_000_000_000,
    ensures
        r == hit_size(size),
{
    Vec2 { x: size.x * HIT_PERCENT / 100, y: size.y * HIT_PERCENT / 100 }
}

/// Reflects the velocity by the side struck, if the yarn still moves toward it.
pub fn bounce_velocity(v: Vec2, c: Option<Collision>) -> (r: Vec2)
    requires
        velocity_ok(v),
    ensures
        r == bounce(v, c),
        velocity_ok(r),
{
    match c {
        Some(Collision::Left) => if v.x > 0 { Vec2 { x: -v.x, y: v.y } } else { v },
        Some(Collision::Right) => if v.x <= 0 { Vec2 { x: -v.x, y: v.y } } else { v },
        Some(Collision::Bottom) => if v.y > 0 { Vec2 { x: v.x, y: -v.y } } else { v },
        Some(Collision::Top) => if v.y <= 0 { Vec2 { x: v.x, y: -v.y } } else { v },
        _ => v,
    }
}

/// The integer square root of `n`.
pub open spec fn root_of(n: int) -> int {
    choose|r: int| is_isqrt(n, r)
}

proof fn lemma_root_of(n: int, r: int)
    requires
        is_isqrt(n, r),
    ensures
        root_of(n) == r,
{
    let q = root_of(n);
    assert(is_isqrt(n, q));
    assert(q < r + 1) by (nonlinear_arith)
        requires q >= 0, r >= 0, q * q <= n, n < (r + 1) * (r + 1);
    assert(r < q + 1) by (nonlinear_arith)
        requires q >= 0, r >= 0, r * r <= n, n < (q + 1) * (q + 1);
}

/// A spawn offset: each component within `OFFSET_RANGE` of zero.
pub open spec fn offset_ok(o: Vec2) -> bool {
    -OFFSET_RANGE <= o.x <= OFFSET_RANGE && -OFFSET_RANGE <= o.y <= OFFSET_RANGE
}

/// The offset scaled to unit length (per mille): each component times a
/// million over the integer square root of a million times the squared
/// length, rounding toward zero.
pub open spec fn direction_of(o: Vec2) -> Vec2 {
    let len = root_of((o.x * o.x + o.y * o.y) * DIRECTION_UNIT_SQ);
    Vec2::new_spec(
        trunc_div(o.x * DIRECTION_UNIT_SQ, len) as i64,
        trunc_div(o.y * DIRECTION_UNIT_SQ, len) as i64,
    )
}

/// The magnitudes of a scaled offset's components make a vector of unit
/// length, within rounding.
proof fn lemma_unit_norm(a: int, b: int, len: int, p: int, q: int)
    requires
        a >= 0,
        b >= 0,
        a * a + b * b >= 1,
        len >= 1000,
        is_isqrt((a * a + b * b) * DIRECTION_UNIT_SQ, len),
        p == a * DIRECTION_UNIT_SQ / len,
        q == b * DIRECTION_UNIT_SQ / len,
    ensures
        997 * 997 <= p * p + q * q < 1002 * 1002,
        0 <= p < 1002,
        0 <= q < 1002,
{
    let n = a * a + b * b;
    let k = DIRECTION_UNIT_SQ as int;
    vstd::arithmetic::div_mod::lemma_fundamental_div_mod(a * k, len);
    vstd::arithmetic::div_mod::lemma_fundamental_div_mod(b * k, len);
    vstd::arithmetic::div_mod::lemma_mod_pos_bound(a * k, len);
    vstd::arithmetic::div_mod::lemma_mod_pos_bound(b * k, len);
    assert(0 <= p * len <= a * k < (p + 1) * len) by (nonlinear_arith)
        requires a * k == len * p + (a * k) % len, 0 <= (a * k) % len < len, a >= 0, k > 0, len > 0;
    assert(0 <= q * len <= b * k < (q + 1) * len) by (nonlinear_arith)
        requires b * k == len * q + (b * k) % len, 0 <= (b * k) % len < len, b >= 0, k > 0, len > 0;
    assert(p >= 0 && q >= 0) by (nonlinear_arith)
        requires 0 <= p * len, 0 <= q * len, len > 0;
    let l2 = len * len;
    assert(l2 > 0) by (nonlinear_arith)
        requires len >= 1000, l2 == len * len;
    lemma_square_bounds(p * len, a * k, (p + 1) * len);
    lemma_square_bounds(q * len, b * k, (q + 1) * len);
    assert((p * len) * (p * len) == p * p * l2 && ((p + 1) * len) * ((p + 1) * len) == (p + 1) * (p + 1) * l2)
        by (nonlinear_arith) requires l2 == len * len;
    assert((q * len) * (q * len) == q * q * l2 && ((q + 1) * len) * ((q + 1) * len) == (q + 1) * (q + 1) * l2)
        by (nonlinear_arith) requires l2 == len * len;
    assert((a * k) * (a * k) + (b * k) * (b * k) == n * k * k) by (nonlinear_arith)
        requires n == a * a + b * b;
    assert((p * p + q * q) * l2 == p * p * l2 + q * q * l2) by (nonlinear_arith);
    assert(((p + 1) * (p + 1) + (q + 1) * (q + 1)) * l2 == (p + 1) * (p + 1) * l2 + (q + 1) * (q + 1) * l2)
        by (nonlinear_arith);
    assert(n * k * k < k * (len + 1) * (len + 1)) by (nonlinear_arith)
        requires n * k < (len + 1) * (len + 1), k > 0;
    assert(k * (len + 1) * (len + 1) <= 1002 * 1002 * l2) by (nonlinear_arith)
        requires len >= 1000, k == 1_000_000, l2 == len * len;
    assert(k * l2 <= n * k * k) by (nonlinear_arith)
        requires l2 <= n * k, k > 0, l2 == len * len;
    assert(p * p + q * q < 1002 * 1002) by (nonlinear_arith)
        requires (p * p + q * q) * l2 < 1002 * 1002 * l2, l2 > 0;
    assert((p + 1) * (p + 1) + (q + 1) * (q + 1) > k) by (nonlinear_arith)
        requires ((p + 1) * (p + 1) + (q + 1) * (q + 1)) * l2 > k * l2, l2 > 0;
    assert(p < 1002 && q < 1002) by (nonlinear_arith)
        requires p * p + q * q < 1002 * 1002, p >= 0, q >= 0;
    assert((p + 1) * (p + 1) == p * p + 2 * p + 1 && (q + 1) * (q + 1) == q * q + 2 * q + 1) by (nonlinear_arith);
}

proof fn lemma_square_bounds(u: int, w: int, z: int)
    requires
        0 <= u <= w < z,
    ensures
        u * u <= w * w < z * z,
{
    assert(u * u <= w * w) by (nonlinear_arith)
        requires 0 <= u <= w;
    assert(w * w < z * z) by (nonlinear_arith)
        requires 0 <= w < z;
}

/// Normalises a non-zero spawn offset to a unit direction.
pub fn direction(o: Vec2) -> (r: Vec2)
    requires
        offset_ok(o),
        o.x != 0 || o.y != 0,
    ensures
        r == direction_of(o),
        velocity_ok(r),
        997 * 997 <= r.norm_sq() < 1002 * 1002,
{
    assert(0 <= o.x * o.x <= OFFSET_RANGE * OFFSET_RANGE) by (nonlinear_arith)
        requires -OFFSET_RANGE <= o.x <= OFFSET_RANGE;
    assert(0 <= o.y * o.y <= OFFSET_RANGE * OFFSET_RANGE) by (nonlinear_arith)
        requires -OFFSET_RANGE <= o.y <= OFFSET_RANGE;
    assert(1 <= o.x * o.x + o.y * o.y) by (nonlinear_arith)
        requires o.x != 0 || o.y != 0;
    let n: u64 = ((o.x * o.x + o.y * o.y) * DIRECTION_UNIT_SQ) as u64;
    let len = isqrt(n);
    assert(len <= n) by (nonlinear_arith)
        requires len * len <= n, len >= 0;
    assert(len >= 1000) by (nonlinear_arith)
        requires n >= 1_000_000, n < (len + 1) * (len + 1), len >= 0;
    let ghost a = if o.x >= 0 { o.x as int } else { -o.x };
    let ghost b = if o.y >= 0 { o.y as int } else { -o.y };
    proof {
        lemma_root_of(n as int, len as int);
        assert(a * a == o.x * o.x && b * b == o.y * o.y) by (nonlinear_arith)
            requires a == o.x || a == -o.x, b == o.y || b == -o.y;
        lemma_unit_norm(a, b, len as int, a * DIRECTION_UNIT_SQ / len as int, b * DIRECTION_UNIT_SQ / len as int);
    }
    let r = Vec2 {
        x: div_toward_zero(o.x * DIRECTION_UNIT_SQ, len as i64),
        y: div_toward_zero(o.y * DIRECTION_UNIT_SQ, len as i64),
    };
    proof {
        assert(r.x == a * DIRECTION_UNIT_SQ / len as int || r.x == -(a * DIRECTION_UNIT_SQ / len as int));
        assert(r.y == b * DIRECTION_UNIT_SQ / len as int || r.y == -(b * DIRECTION_UNIT_SQ / len as int));
        let p = a * DIRECTION_UNIT_SQ / len as int;
        let q = b * DIRECTION_UNIT_SQ / len as int;
        assert(r.x * r.x == p * p && r.y * r.y == q * q) by (nonlinear_arith)
            requires r.x == p || r.x == -p, r.y == q || r.y == -q;
    }
    r
}

/// The yarns after every one has moved for `delta` microseconds.
pub open spec fn moved_all(ys: Seq<Yarn>, delta: int) -> Seq<Yarn> {
    Seq::new(ys.len(), |i: int| moved(ys[i], delta))
}

/// The yarns after the spawn step: one more, at the centre and heading along
/// the offset, where a spawn is due and the offset is not zero.
pub open spec fn spawned(ys: Seq<Yarn>, due: bool, offset: Vec2) -> Seq<Yarn> {
    if due && (offset.x != 0 || offset.y != 0) {
        ys.push(Yarn { position: Vec2::new_spec(0, 0), velocity: direction_of(offset) })
    } else {
        ys
    }
}

/// The yarns after one whole frame: spawn, move, walls, collisions.
pub open spec fn frame_yarns(ys: Seq<Yarn>, tunas: Seq<Vec2>, due: bool, delta: int, offset: Vec2, paddle_x: i64) -> Seq<Yarn> {
    collided(wall_pass(moved_all(spawned(ys, due, offset), delta)), boxes_of(tunas, paddle_x))
}

/// The tuna blocks left standing after one whole frame.
pub open spec fn frame_tunas(ys: Seq<Yarn>, tunas: Seq<Vec2>, due: bool, delta: int, offset: Vec2) -> Seq<Vec2> {
    surviving(tunas, wall_pass(moved_all(spawned(ys, due, offset), delta)))
}

/// The tuna grid: three blocks across at a quarter of the height above the
/// centre, and three more ten units below them.
pub open spec fn tuna_grid() -> Seq<Vec2> {
    seq![
        Vec2::new_spec(0, 36_000),
        Vec2::new_spec(-22_500i64, 36_000),
        Vec2::new_spec(22_500, 36_000),
        Vec2::new_spec(0, 26_000),
        Vec2::new_spec(-22_500i64, 26_000),
        Vec2::new_spec(22_500, 26_000),
    ]
}

/// The yarns in play, the tuna blocks still standing, and the yarn spawner.
#[derive(Debug)]
pub struct YarnPlugin {
    pub tracker: Spawner,
    pub yarns: Vec<Yarn>,
    pub tunas: Vec<Vec2>,
}

impl YarnPlugin {
    /// What holds of the yarns' world between frames: one counted yarn per
    /// yarn in play, never more than `YARN_CAP`.
    pub open spec fn wf(&self) -> bool {
        self.common_wf() && forall|i: int| 0 <= i < self.yarns@.len() ==> (#[trigger] self.yarns@[i]).settled()
    }

    /// What holds after the yarns moved and before the walls are checked.
    pub open spec fn moved_wf(&self) -> bool {
        self.common_wf() && forall|i: int| 0 <= i < self.yarns@.len() ==> (#[trigger] self.yarns@[i]).moved_ok()
    }

    pub open spec fn common_wf(&self) -> bool {
        &&& self.tracker.wf()
        &&& self.tracker.cap == YARN_CAP
        &&& self.tracker.count == self.yarns@.len()
        &&& forall|i: int| 0 <= i < self.tunas@.len() ==> tuna_ok(#[trigger] self.tunas@[i])
    }

    /// The yarns' world as play starts: no yarn, the full tuna grid.
    pub fn setup() -> (r: YarnPlugin)
        ensures
            r.wf(),
            r.yarns@.len() == 0,
            r.tunas@ == tuna_grid(),
            r.tracker.count == 0,
            r.tracker.timer.period == YARN_SPAWN_PERIOD,
            r.tracker.timer.elapsed == 0,
    {
        let tunas = vec![
            Vec2 { x: 0, y: 36_000 },
            Vec2 { x: -22_500, y: 36_000 },
            Vec2 { x: 22_500, y: 36_000 },
            Vec2 { x: 0, y: 26_000 },
            Vec2 { x: -22_500, y: 26_000 },
            Vec2 { x: 22_500, y: 26_000 },
        ];
        assert(tunas@ =~= tuna_grid());
        YarnPlugin { tracker: Spawner::new(YARN_CAP, YARN_SPAWN_PERIOD), yarns: Vec::new(), tunas }
    }

    /// Advances the spawn timer; where a spawn falls due and the offset is
    /// not zero, a yarn heading along the offset joins at the centre. A zero
    /// offset has no direction: the spawn is skipped.
    pub fn spawning_system(&mut self, delta: u32, offset: Vec2)
        requires
            old(self).wf(),
            offset_ok(offset),
        ensures
            final(self).wf(),
            final(self).tunas@ == old(self).tunas@,
            final(self).yarns@ == spawned(old(self).yarns@, old(self).tracker.due_after(delta as int), offset),
            final(self).tracker.timer.period == old(self).tracker.timer.period,
            final(self).tracker.timer.elapsed == old(self).tracker.timer.elapsed_after(delta as int),
    {
        let due = self.tracker.tick(delta);
        if due && (offset.x != 0 || offset.y != 0) {
            let v = direction(offset);
            let y = Yarn { position: Vec2 { x: 0, y: 0 }, velocity: v };
            assert(y.settled());
            self.yarns.push(y);
            self.tracker.record_spawn();
        }
    }

    /// Moves every yarn by its velocity over `delta` microseconds.
    pub fn movement_system(&mut self, delta: u32)
        requires
            old(self).wf(),
        ensures
            final(self).moved_wf(),
            final(self).yarns@ == moved_all(old(self).yarns@, delta as int),
            final(self).tunas@ == old(self).tunas@,
            final(self).tracker == old(self).tracker,
    {
        let n = self.yarns.len();
        let mut out: Vec<Yarn> = Vec::new();
        for i in 0..n
            invariant
                n == self.yarns@.len(),
                self.wf(),
                out@.len() == i,
                forall|k: int| 0 <= k < i ==> out@[k] == moved(self.yarns@[k], delta as int),
                forall|k: int| 0 <= k < i ==> (#[trigger] out@[k]).moved_ok(),
        {
            let y = move_yarn(self.yarns[i], delta);
            out.push(y);
        }
        self.yarns = out;
        assert(self.yarns@ =~= moved_all(old(self).yarns@, delta as int));
    }

    /// Checks every yarn against the walls: a yarn that crossed the bottom
    /// wall moving down leaves play and is counted out, once; the others are
    /// reflected.
    pub fn wall_system(&mut self)
        requires
            old(self).moved_wf(),
        ensures
            final(self).wf(),
            final(self).yarns@ == wall_pass(old(self).yarns@),
            final(self).tracker.count == old(self).tracker.count - exit_count(old(self).yarns@),
            final(self).tracker.timer == old(self).tracker.timer,
            final(self).tunas@ == old(self).tunas@,
    {
        let n = self.yarns.len();
        let mut out: Vec<Yarn> = Vec::new();
        let ghost ys = self.yarns@;
        for i in 0..n
            invariant
                n == ys.len(),
                self.yarns@ == ys,
                self.tracker.wf(),
                self.tracker.cap == YARN_CAP,
                self.tracker.timer == old(self).tracker.timer,
                self.tunas@ == old(self).tunas@,
                old(self).moved_wf(),
                forall|k: int| 0 <= k < ys.len() ==> (#[trigger] ys[k]).moved_ok(),
                out@ == wall_pass(ys.subrange(0, i as int)),
                self.tracker.count == old(self).tracker.count - exit_count(ys.subrange(0, i as int)),
                self.tracker.count == out@.len() + (n - i),
                forall|k: int| 0 <= k < out@.len() ==> (#[trigger] out@[k]).settled(),
        {
            proof {
                assert(ys.subrange(0, i + 1).drop_last() =~= ys.subrange(0, i as int));
                assert(ys.subrange(0, i + 1).last() == ys[i as int]);
            }
            match wall_check(self.yarns[i]) {
                Some(y) => {
                    out.push(y);
                },
                None => {
                    self.tracker.record_exit();
                },
            }
        }
        proof {
            assert(ys.subrange(0, n as int) =~= ys);
        }
        self.yarns = out;
    }

    /// Tests every yarn against every tuna block, then the paddle, reflecting
    /// its velocity by the side struck; every tuna block struck is removed
    /// once all yarns are tested.
    pub fn collision_system(&mut self, paddle_x: i64)
        requires
            old(self).wf(),
            -COORD_LIMIT <= paddle_x <= COORD_LIMIT,
        ensures
            final(self).wf(),
            final(self).yarns@ == collided(old(self).yarns@, boxes_of(old(self).tunas@, paddle_x)),
            final(self).tunas@ == surviving(old(self).tunas@, old(self).yarns@),
            final(self).tracker == old(self).tracker,
    {
        let ghost ys = self.yarns@;
        let ghost ts = self.tunas@;
        let nt = self.tunas.len();
        let mut boxes: Vec<Collider> = Vec::new();
        for k in 0..nt
            invariant
                nt == ts.len(),
                self.tunas@ == ts,
                boxes@.len() == k,
                forall|j: int| 0 <= j < k ==> boxes@[j] == tuna_box(ts[j]),
        {
            boxes.push(Collider { center: self.tunas[k], size: Vec2 { x: TUNA_WIDTH, y: TUNA_HEIGHT } });
        }
        boxes.push(Collider { center: Vec2 { x: paddle_x, y: PADDLE_Y }, size: Vec2 { x: PADDLE_WIDTH, y: PADDLE_HEIGHT } });
        let ghost bs = boxes_of(ts, paddle_x);
        assert(boxes@ =~= bs);
        assert(forall|m: int| 0 <= m < nt ==> bs[m] == tuna_box(ts[m]));
        assert forall|j: int| 0 <= j < bs.len() implies field_box(#[trigger] bs[j]) by {
            if j < nt {
                assert(tuna_ok(ts[j]));
            }
        }
        let yarn_hit = hit_box(Vec2 { x: YARN_SIZE, y: YARN_SIZE });
        let mut hit: Vec<bool> = Vec::new();
        for k in 0..nt
            invariant
                hit@.len() == k,
                forall|j: int| 0 <= j < k ==> !hit@[j],
        {
            hit.push(false);
        }
        let n = self.yarns.len();
        let nb = boxes.len();
        let mut out: Vec<Yarn> = Vec::new();
        for i in 0..n
            invariant
                n == ys.len(),
                nb == bs.len(),
                nb == nt + 1,
                nt == ts.len(),
                self.yarns@ == ys,
                self.tunas@ == ts,
                boxes@ == bs,
                yarn_hit == hit_size(yarn_size()),
                old(self).wf(),
                ys == old(self).yarns@,
                forall|j: int| 0 <= j < bs.len() ==> field_box(#[trigger] bs[j]),
                forall|m: int| 0 <= m < nt ==> bs[m] == tuna_box(ts[m]),
                out@.len() == i,
                forall|k: int| 0 <= k < i ==> (#[trigger] out@[k]) == collided(ys, bs)[k],
                hit@.len() == nt,
                forall|j: int| 0 <= j < nt ==> hit@[j] == (exists|k: int|
                    0 <= k < i && (#[trigger] hit_of(ys[k].position, tuna_box(ts[j]))) is Some),
        {
            let y = self.yarns[i];
            assert(y.settled());
            let mut v = y.velocity;
            for j in 0..nb
                invariant
                    nb == bs.len(),
                    nb == nt + 1,
                    nt == ts.len(),
                    boxes@ == bs,
                    yarn_hit == hit_size(yarn_size()),
                    y == ys[i as int],
                    y.settled(),
                    0 <= i < ys.len(),
                    forall|m: int| 0 <= m < bs.len() ==> field_box(#[trigger] bs[m]),
                    forall|m: int| 0 <= m < nt ==> bs[m] == tuna_box(ts[m]),
                    v == bounced_by(y.position, y.velocity, bs.subrange(0, j as int)),
                    velocity_ok(v),
                    hit@.len() == nt,
                    forall|m: int| 0 <= m < nt ==> hit@[m] == ((exists|k: int|
                        0 <= k < i && (#[trigger] hit_of(ys[k].position, tuna_box(ts[m]))) is Some)
                        || (m < j && hit_of(y.position, tuna_box(ts[m])) is Some)),
            {
                let b = boxes[j];
                assert(field_box(b));
                let c = collide(y.position, yarn_hit, b.center, hit_box(b.size));
                proof {
                    assert(c == hit_of(y.position, b));
                    if j < nt {
                        assert(bs[j as int] == tuna_box(ts[j as int]));
                    }
                    assert(bs.subrange(0, j + 1).drop_last() =~= bs.subrange(0, j as int));
                    assert(bs.subrange(0, j + 1).last() == b);
                }
                if c.is_some() && j < nt {
                    hit.set(j, true);
                }
                v = bounce_velocity(v, c);
            }
            proof {
                assert(bs.subrange(0, nb as int) =~= bs);
                assert forall|m: int| 0 <= m < nt implies hit@[m] == (exists|k: int|
                    0 <= k < i + 1 && (#[trigger] hit_of(ys[k].position, tuna_box(ts[m]))) is Some) by {
                    if hit_of(y.position, tuna_box(ts[m])) is Some {
                        assert(0 <= i < i + 1 && hit_of(ys[i as int].position, tuna_box(ts[m])) is Some);
                    }
                }
            }
            out.push(Yarn { position: y.position, velocity: v });
        }
        let mut kept: Vec<Vec2> = Vec::new();
        for k in 0..nt
            invariant
                nt == ts.len(),
                self.tunas@ == ts,
                hit@.len() == nt,
                forall|j: int| 0 <= j < nt ==> hit@[j] == struck(ys, ts[j]),
                kept@ == surviving(ts.subrange(0, k as int), ys),
                forall|j: int| 0 <= j < kept@.len() ==> tuna_ok(#[trigger] kept@[j]),
                old(self).wf(),
                ts == old(self).tunas@,
        {
            proof {
                assert(ts.subrange(0, k + 1).drop_last() =~= ts.subrange(0, k as int));
                assert(ts.subrange(0, k + 1).last() == ts[k as int]);
                assert(tuna_ok(ts[k as int]));
            }
            if !hit[k] {
                kept.push(self.tunas[k]);
            }
        }
        proof {
            assert(ts.subrange(0, nt as int) =~= ts);
            assert(out@ =~= collided(ys, bs));
            assert forall|k: int| 0 <= k < out@.len() implies (#[trigger] out@[k]).settled() by {
                assert(ys[k].settled());
                lemma_bounced_by(ys[k].position, ys[k].velocity, bs);
            }
        }
        self.yarns = out;
        self.tunas = kept;
    }

    /// One frame of the yarns' world, in order: spawn, move, walls, collisions
    /// (against the tuna blocks and the paddle at `paddle_x`).
    pub fn update(&mut self, delta: u32, offset: Vec2, paddle_x: i64)
        requires
            old(self).wf(),
            offset_ok(offset),
            -COORD_LIMIT <= paddle_x <= COORD_LIMIT,
        ensures
            final(self).wf(),
            ({
                let due = old(self).tracker.due_after(delta as int);
                let s = spawned(old(self).yarns@, due, offset);
                &&& final(self).yarns@ == frame_yarns(old(self).yarns@, old(self).tunas@, due, delta as int, offset, paddle_x)
                &&& final(self).tunas@ == frame_tunas(old(self).yarns@, old(self).tunas@, due, delta as int, offset)
                &&& final(self).tracker.count == s.len() - exit_count(moved_all(s, delta as int))
            }),
            final(self).tracker.timer.period == old(self).tracker.timer.period,
            final(self).tracker.timer.elapsed == old(self).tracker.timer.elapsed_after(delta as int),
    {
        self.spawning_system(delta, offset);
        self.movement_system(delta);
        self.wall_system();
        self.collision_system(paddle_x);
    }
}

/// The yarn count never exceeds the cap, and checking the walls lowers it by
/// exactly the number of yarns that leave by the bottom: one count per yarn
/// removed.
pub proof fn lemma_exits_counted_once(before: &YarnPlugin, after: &YarnPlugin)
    requires
        before.moved_wf(),
        after.yarns@ == wall_pass(before.yarns@),
        after.tracker.count == before.tracker.count - exit_count(before.yarns@),
    ensures
        before.tracker.count <= YARN_CAP,
        after.tracker.count <= YARN_CAP,
        before.tracker.count - after.tracker.count == exit_count(before.yarns@),
        before.yarns@.len() - after.yarns@.len() == exit_count(before.yarns@),
        after.tracker.count == after.yarns@.len(),
{
    lemma_wall_pass_len(before.yarns@);
}

} // verus!
