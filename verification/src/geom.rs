//! Fixed-point scalars, 2D points, window extents, and the integer
//! square root used for Euclidean distances.

use vstd::prelude::*;
use vstd::arithmetic::div_mod::lemma_div_is_ordered;
use vstd::arithmetic::div_mod::lemma_div_multiples_vanish;
use vstd::arithmetic::div_mod::lemma_div_pos_is_pos;

verus! {

/// One unit (pixel, second, radian) in fixed-point milli-units.
pub const SCALE: i64 = 1000;

/// Bound on every coordinate the library works with, in milli-pixels
/// (100_000 pixels), far beyond any viewport while keeping all
/// intermediate products inside `i64`.
pub const COORD_MAX: i64 = 100_000_000;

/// Bound on angular or linear speed, in milli-units per second.
pub const SPEED_MAX: i64 = 100_000_000;

/// Bound on a single tick's duration, in milli-seconds (one minute).
pub const DT_MAX: i64 = 60_000;

/// A 2D point or extent in milli-pixels.
#[derive(Clone, Copy, PartialEq, Eq, Structural, Debug)]
pub struct Vec2 {
    pub x: i64,
    pub y: i64,
}

impl Vec2 {
    pub open spec fn bounded(self) -> bool {
        -COORD_MAX <= self.x <= COORD_MAX && -COORD_MAX <= self.y <= COORD_MAX
    }

    /// The looser bound that positions stay within while an enemy flies:
    /// a bounded pivot plus a bounded ellipse offset.
    pub open spec fn in_play(self) -> bool {
        -2 * COORD_MAX <= self.x <= 2 * COORD_MAX && -2 * COORD_MAX <= self.y <= 2 * COORD_MAX
    }

    pub fn new(x: i64, y: i64) -> (v: Vec2)
        ensures
            v.x == x && v.y == y,
    {
        Vec2 { x, y }
    }
}

/// Full window width and height in milli-pixels.
#[derive(Clone, Copy, PartialEq, Eq, Structural, Debug)]
pub struct WinSize {
    pub w: i64,
    pub h: i64,
}

impl WinSize {
    /// A window large enough that every randomization range below is
    /// non-empty, and small enough that spawn points stay bounded.
    pub open spec fn wf(self) -> bool {
        4 <= self.w <= COORD_MAX / 2 && self.h <= COORD_MAX / 2 && self.h / 3 - 50 * SCALE > 0
    }

    pub fn new(w: i64, h: i64) -> (s: WinSize)
        ensures
            s.w == w && s.h == h,
    {
        WinSize { w, h }
    }
}

/// Division rounded toward zero, the rounding the library uses whenever a
/// signed product is scaled back down.
pub open spec fn div_trunc(a: int, b: int) -> int {
    if a >= 0 {
        a / b
    } else {
        -((-a) / b)
    }
}

/// Truncating division keeps a bound on the dividend's magnitude.
pub proof fn lemma_div_trunc_bounds(a: int, b: int, m: int)
    requires
        0 < b,
        0 <= m,
        -(b * m) <= a <= b * m,
    ensures
        -m <= div_trunc(a, b) <= m,
{
    if a >= 0 {
        lemma_div_bounds(a, b, m);
    } else {
        lemma_div_bounds(-a, b, m);
    }
}

/// Scales a fixed-point product back down, rounding toward zero.
pub fn scale_down(a: i64) -> (r: i64)
    requires
        -0x4000_0000_0000_0000 <= a <= 0x4000_0000_0000_0000,
    ensures
        r == div_trunc(a as int, SCALE as int),
{
    if a >= 0 {
        a / SCALE
    } else {
        -((-a) / SCALE)
    }
}

/// A quotient of a bounded non-negative dividend stays within `[0, c]`.
pub proof fn lemma_div_bounds(a: int, b: int, c: int)
    requires
        0 <= a,
        0 < b,
        a <= b * c,
    ensures
        0 <= a / b <= c,
{
    lemma_div_pos_is_pos(a, b);
    lemma_div_is_ordered(a, b * c, b);
    lemma_div_multiples_vanish(c, b);
}

/// The floor of the square root of `n` (0 for negative `n`).
pub open spec fn sqrt_floor(n: int) -> int
    decreases n,
{
    if n <= 0 {
        0
    } else {
        let r = sqrt_floor(n - 1);
        if (r + 1) * (r + 1) <= n {
            r + 1
        } else {
            r
        }
    }
}

/// `sqrt_floor(n)` is the unique `r >= 0` with `r * r <= n < (r + 1) * (r + 1)`.
pub proof fn lemma_sqrt_floor(n: int)
    requires
        n >= 0,
    ensures
        0 <= sqrt_floor(n),
        sqrt_floor(n) * sqrt_floor(n) <= n,
        n < (sqrt_floor(n) + 1) * (sqrt_floor(n) + 1),
    decreases n,
{
    if n > 0 {
        lemma_sqrt_floor(n - 1);
        let r = sqrt_floor(n - 1);
        if (r + 1) * (r + 1) <= n {
            assert(n < (r + 2) * (r + 2)) by (nonlinear_arith)
                requires
                    n - 1 < (r + 1) * (r + 1) && r >= 0,
            ;
        }
    }
}

/// Any `r >= 0` squeezed the same way equals `sqrt_floor(n)`.
pub proof fn lemma_sqrt_floor_unique(n: int, r: int)
    requires
        n >= 0,
        r >= 0,
        r * r <= n,
        n < (r + 1) * (r + 1),
    ensures
        r == sqrt_floor(n),
{
    lemma_sqrt_floor(n);
    let s = sqrt_floor(n);
    assert(r == s) by (nonlinear_arith)
        requires
            r >= 0 && s >= 0 && r * r <= n && n < (r + 1) * (r + 1) && s * s <= n && n < (s + 1)
                * (s + 1),
    ;
}

/// Integer square root by bisection.
pub fn isqrt(n: i64) -> (r: i64)
    requires
        0 <= n < 0x1000_0000_0000_0000,
    ensures
        r == sqrt_floor(n as int),
        0 <= r,
{
    proof {
        lemma_sqrt_floor(n as int);
    }
    let mut lo: i64 = 0;
    let mut hi: i64 = 0x4000_0000;
    while lo + 1 < hi
        invariant
            0 <= lo < hi <= 0x4000_0000,
            lo * lo <= n,
            n < hi * hi,
            n < 0x1000_0000_0000_0000,
        decreases hi - lo,
    {
        let mid: i64 = lo + (hi - lo) / 2;
        proof {
            assert(mid * mid <= 0x4000_0000 * 0x4000_0000) by (nonlinear_arith)
                requires
                    0 <= mid <= 0x4000_0000,
            ;
        }
        if mid * mid <= n {
            lo = mid;
        } else {
            hi = mid;
        }
    }
    proof {
        lemma_sqrt_floor_unique(n as int, lo as int);
    }
    lo
}

} // verus!
