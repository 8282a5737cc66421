use vstd::prelude::*;

verus! {

/// Sub-units per world unit: every length of the playfield is counted in them.
pub const UNIT: i64 = 1000;

/// Microseconds per second.
pub const MICROS_PER_SECOND: i64 = 1_000_000;

/// A point, an offset or a velocity in the plane, in fixed-point units.
#[derive(Clone, Copy, Debug, PartialEq, Eq, Structural)]
pub struct Vec2 {
    pub x: i64,
    pub y: i64,
}

impl Vec2 {
    pub fn new(x: i64, y: i64) -> (r: Vec2)
        ensures
            r.x == x,
            r.y == y,
    {
        Vec2 { x, y }
    }

    pub open spec fn new_spec(x: i64, y: i64) -> Vec2 {
        Vec2 { x, y }
    }

    /// The squared length, exact.
    pub open spec fn norm_sq(self) -> int {
        self.x * self.x + self.y * self.y
    }
}

/// Integer division rounded toward zero, as Rust's `/` on signed integers.
pub open spec fn trunc_div(a: int, d: int) -> int {
    if a >= 0 {
        a / d
    } else {
        -((-a) / d)
    }
}

/// `a / d` rounded toward zero.
pub fn div_toward_zero(a: i64, d: i64) -> (r: i64)
    requires
        d > 0,
        a > i64::MIN,
    ensures
        r == trunc_div(a as int, d as int),
{
    if a >= 0 {
        a / d
    } else {
        let m: i64 = -a;
        -(m / d)
    }
}

/// `a / d` rounded toward zero, on 128-bit integers.
pub fn div_toward_zero_wide(a: i128, d: i128) -> (r: i128)
    requires
        d > 0,
        a > i128::MIN,
    ensures
        r == trunc_div(a as int, d as int),
{
    if a >= 0 {
        a / d
    } else {
        let m: i128 = -a;
        -(m / d)
    }
}

/// `trunc_div(a, d)` is no farther from zero than `a / d` allows.
pub proof fn lemma_trunc_div_bounds(a: int, d: int, bound: int)
    requires
        d > 0,
        -(bound * d) <= a <= bound * d,
    ensures
        -bound <= trunc_div(a, d) <= bound,
        a >= 0 ==> trunc_div(a, d) >= 0,
        a <= 0 ==> trunc_div(a, d) <= 0,
{
    if a >= 0 {
        assert(a / d <= bound) by (nonlinear_arith)
            requires d > 0, a <= bound * d, a >= 0;
        assert(a / d >= 0) by (nonlinear_arith)
            requires d > 0, a >= 0;
    } else {
        assert((-a) / d <= bound) by (nonlinear_arith)
            requires d > 0, -a <= bound * d, -a >= 0;
        assert((-a) / d >= 0) by (nonlinear_arith)
            requires d > 0, -a >= 0;
    }
}

/// The integer square root of `n`: the largest `r` with `r * r <= n`.
pub open spec fn is_isqrt(n: int, r: int) -> bool {
    r >= 0 && r * r <= n && n < (r + 1) * (r + 1)
}

/// The integer square root, by bisection.
pub fn isqrt(n: u64) -> (r: u64)
    ensures
        is_isqrt(n as int, r as int),
{
    let mut lo: u64 = 0;
    let mut hi: u64 = 0x1_0000_0000;
    assert(hi * hi > u64::MAX) by (nonlinear_arith)
        requires hi == 0x1_0000_0000u64;
    while hi - lo > 1
        invariant
            lo < hi <= 0x1_0000_0000,
            lo * lo <= n,
            n < hi * hi,
        decreases hi - lo,
    {
        let mid: u64 = lo + (hi - lo) / 2;
        assert(mid * mid <= u64::MAX) by (nonlinear_arith)
            requires mid < 0x1_0000_0000u64;
        if mid * mid <= n {
            lo = mid;
        } else {
            hi = mid;
        }
    }
    lo
}

} // verus!
