//! Fixed-point trigonometry in milli-radians: a rational half-wave
//! approximation of the sine, the cosine as a quarter-turn shift, and a
//! quadrant-exact two-argument arctangent. The approximations are pinned
//! exactly by the spec functions below; the proved facts are their range
//! (never beyond `SCALE`, one fixed-point unit) and their quadrant signs,
//! which is what the motion model relies on.

use vstd::prelude::*;
use crate::geom::lemma_div_bounds;
use crate::geom::COORD_MAX;
use crate::geom::SCALE;

verus! {

/// One half turn, in milli-radians.
pub const PI_MR: i64 = 3142;

/// One quarter turn; `2 * HALF_PI_MR == PI_MR` exactly.
pub const HALF_PI_MR: i64 = 1571;

/// One full turn; every angle the library stores lies in `[0, TWO_PI_MR)`.
pub const TWO_PI_MR: i64 = 6284;

/// One eighth turn, in milli-radians.
pub const QUARTER_PI_MR: i64 = 785;

/// Quadratic-correction coefficient of the arctangent approximation
/// (0.273 in milli-units).
pub const ATAN_C: i64 = 273;

/// Rational approximation of `SCALE * sin(x / SCALE)` on the half wave
/// `0 <= x <= PI_MR`.
pub open spec fn sin_half_wave(x: int) -> int {
    let u = x * (PI_MR - x);
    (16 * u * SCALE) / (5 * PI_MR * PI_MR - 4 * u)
}

/// `SCALE * sin(a / SCALE)` for an angle `a` in `[0, TWO_PI_MR)`.
pub open spec fn sin_milli(a: int) -> int {
    if a <= PI_MR {
        sin_half_wave(a)
    } else {
        -sin_half_wave(a - PI_MR)
    }
}

/// An angle advanced a quarter turn, wrapped back into `[0, TWO_PI_MR)`.
pub open spec fn quarter_shift(a: int) -> int {
    if a + HALF_PI_MR >= TWO_PI_MR {
        a + HALF_PI_MR - TWO_PI_MR
    } else {
        a + HALF_PI_MR
    }
}

/// `SCALE * cos(a / SCALE)` for an angle `a` in `[0, TWO_PI_MR)`.
pub open spec fn cos_milli(a: int) -> int {
    sin_milli(quarter_shift(a))
}

pub proof fn lemma_sin_half_wave_bounds(x: int)
    requires
        0 <= x <= PI_MR,
    ensures
        0 <= sin_half_wave(x) <= SCALE,
        x == 0 || x == PI_MR ==> sin_half_wave(x) == 0,
{
    assert(0 <= x * (PI_MR - x) && 4 * (x * (PI_MR - x)) <= PI_MR * PI_MR) by (nonlinear_arith)
        requires
            0 <= x <= PI_MR,
    ;
    let u = x * (PI_MR - x);
    let num = 16 * u * SCALE;
    let den = 5 * PI_MR * PI_MR - 4 * u;
    assert(num <= SCALE * den);
    lemma_div_bounds(num, den, SCALE as int);
    if x == 0 || x == PI_MR {
        assert(u == 0) by (nonlinear_arith)
            requires
                u == x * (PI_MR - x) && (x == 0 || x == PI_MR),
        ;
        lemma_div_bounds(num, den, 0);
    }
}

/// The sine approximation stays within one fixed-point unit and keeps
/// the sign of the exact sine: non-negative on the first half turn,
/// non-positive on the second, zero at the turning points.
pub proof fn lemma_sin_bounds(a: int)
    requires
        0 <= a < TWO_PI_MR,
    ensures
        -SCALE <= sin_milli(a) <= SCALE,
        a <= PI_MR ==> sin_milli(a) >= 0,
        a >= PI_MR ==> sin_milli(a) <= 0,
        a == 0 || a == PI_MR ==> sin_milli(a) == 0,
{
    if a <= PI_MR {
        lemma_sin_half_wave_bounds(a);
    }
    if a >= PI_MR {
        if a == PI_MR {
            lemma_sin_half_wave_bounds(a);
        } else {
            lemma_sin_half_wave_bounds(a - PI_MR);
        }
    }
}

/// Sign and range of the cosine approximation, by quadrant.
pub proof fn lemma_cos_bounds(a: int)
    requires
        0 <= a < TWO_PI_MR,
    ensures
        -SCALE <= cos_milli(a) <= SCALE,
        a <= HALF_PI_MR ==> cos_milli(a) >= 0,
        a >= 3 * HALF_PI_MR ==> cos_milli(a) >= 0,
        HALF_PI_MR <= a <= 3 * HALF_PI_MR ==> cos_milli(a) <= 0,
{
    lemma_sin_bounds(quarter_shift(a));
}

/// `atan(z / SCALE) * SCALE` for `z` in `[0, SCALE]`: the linear term plus
/// a quadratic correction, never leaving `[0, QUARTER_PI_MR]`.
pub open spec fn atan_unit(z: int) -> int {
    (QUARTER_PI_MR * z + (ATAN_C * z * (SCALE - z)) / (SCALE as int)) / (SCALE as int)
}

pub proof fn lemma_atan_unit_bounds(z: int)
    requires
        0 <= z <= SCALE,
    ensures
        0 <= atan_unit(z) <= QUARTER_PI_MR,
{
    assert(0 <= ATAN_C * z * (SCALE - z) && ATAN_C * z * (SCALE - z) <= SCALE * (QUARTER_PI_MR
        * (SCALE - z))) by (nonlinear_arith)
        requires
            0 <= z <= SCALE,
            ATAN_C == 273,
            SCALE == 1000,
            QUARTER_PI_MR == 785,
    ;
    let w = ATAN_C * z * (SCALE - z);
    lemma_div_bounds(w, SCALE as int, QUARTER_PI_MR * (SCALE - z));
    let num = QUARTER_PI_MR * z + w / (SCALE as int);
    assert(num <= SCALE * QUARTER_PI_MR);
    lemma_div_bounds(num, SCALE as int, QUARTER_PI_MR as int);
}

/// First-quadrant arctangent of `ay / ax` (both magnitudes), in
/// `[0, HALF_PI_MR]`.
pub open spec fn octant_atan(ay: int, ax: int) -> int {
    if ax >= ay {
        atan_unit(ay * SCALE / ax)
    } else {
        HALF_PI_MR - atan_unit(ax * SCALE / ay)
    }
}

pub proof fn lemma_octant_atan_bounds(ay: int, ax: int)
    requires
        0 <= ay,
        0 <= ax,
        ax + ay > 0,
    ensures
        0 <= octant_atan(ay, ax) <= HALF_PI_MR,
{
    if ax >= ay {
        let z = ay * SCALE / ax;
        assert(ay * SCALE <= ax * SCALE) by (nonlinear_arith)
            requires
                0 <= ay <= ax,
        ;
        lemma_div_bounds(ay * SCALE, ax, SCALE as int);
        lemma_atan_unit_bounds(z);
    } else {
        let z = ax * SCALE / ay;
        assert(ax * SCALE <= ay * SCALE) by (nonlinear_arith)
            requires
                0 <= ax <= ay,
        ;
        lemma_div_bounds(ax * SCALE, ay, SCALE as int);
        lemma_atan_unit_bounds(z);
    }
}

/// The angle of the point `(x, y)` from the origin, in `[0, TWO_PI_MR)`,
/// counter-clockwise from the positive x axis; `0` for the origin itself.
pub open spec fn atan2_milli(y: int, x: int) -> int {
    if y == 0 && x == 0 {
        0
    } else {
        let ay = if y < 0 {
            -y
        } else {
            y
        };
        let ax = if x < 0 {
            -x
        } else {
            x
        };
        let t = octant_atan(ay, ax);
        if x >= 0 && y >= 0 {
            t
        } else if x < 0 && y >= 0 {
            PI_MR - t
        } else if x < 0 {
            PI_MR + t
        } else if t == 0 {
            0
        } else {
            TWO_PI_MR - t
        }
    }
}

/// The arctangent lands in the quadrant of its argument.
pub proof fn lemma_atan2_quadrant(y: int, x: int)
    ensures
        0 <= atan2_milli(y, x) < TWO_PI_MR,
        y >= 0 && x >= 0 ==> atan2_milli(y, x) <= HALF_PI_MR,
        y >= 0 && x < 0 ==> HALF_PI_MR <= atan2_milli(y, x) <= PI_MR,
        y < 0 && x < 0 ==> PI_MR <= atan2_milli(y, x) <= 3 * HALF_PI_MR,
        y < 0 && x >= 0 ==> atan2_milli(y, x) == 0 || 3 * HALF_PI_MR <= atan2_milli(y, x)
            < TWO_PI_MR,
{
    if !(y == 0 && x == 0) {
        let ay = if y < 0 {
            -y
        } else {
            y
        };
        let ax = if x < 0 {
            -x
        } else {
            x
        };
        lemma_octant_atan_bounds(ay, ax);
    }
}

/// The cosine and sine taken at `atan2_milli(y, x)` never point to the
/// half-plane opposite `(x, y)`: the target the motion model computes at
/// a start angle lies on the start point's side of the pivot.
pub proof fn lemma_atan2_halfplane(y: int, x: int)
    ensures
        x > 0 ==> cos_milli(atan2_milli(y, x)) >= 0,
        x < 0 ==> cos_milli(atan2_milli(y, x)) <= 0,
        y > 0 ==> sin_milli(atan2_milli(y, x)) >= 0,
        y < 0 ==> sin_milli(atan2_milli(y, x)) <= 0,
{
    let a = atan2_milli(y, x);
    lemma_atan2_quadrant(y, x);
    lemma_sin_bounds(a);
    lemma_cos_bounds(a);
}

/// Executable half-wave sine.
fn sin_half_fp(x: i64) -> (r: i64)
    requires
        0 <= x <= PI_MR,
    ensures
        r == sin_half_wave(x as int),
        0 <= r <= SCALE,
{
    proof {
        lemma_sin_half_wave_bounds(x as int);
    }
    assert(0 <= x * (PI_MR - x) <= PI_MR * PI_MR) by (nonlinear_arith)
        requires
            0 <= x <= PI_MR,
    ;
    let u: i64 = x * (PI_MR - x);
    (16 * u * SCALE) / (5 * PI_MR * PI_MR - 4 * u)
}

/// Executable sine over `[0, TWO_PI_MR)`, equal to `sin_milli`.
pub fn sin_fp(a: i64) -> (r: i64)
    requires
        0 <= a < TWO_PI_MR,
    ensures
        r == sin_milli(a as int),
        -SCALE <= r <= SCALE,
{
    if a <= PI_MR {
        sin_half_fp(a)
    } else {
        -sin_half_fp(a - PI_MR)
    }
}

/// Executable cosine over `[0, TWO_PI_MR)`, equal to `cos_milli`.
pub fn cos_fp(a: i64) -> (r: i64)
    requires
        0 <= a < TWO_PI_MR,
    ensures
        r == cos_milli(a as int),
        -SCALE <= r <= SCALE,
{
    let shifted: i64 = if a + HALF_PI_MR >= TWO_PI_MR {
        a + HALF_PI_MR - TWO_PI_MR
    } else {
        a + HALF_PI_MR
    };
    sin_fp(shifted)
}

/// Executable unit-interval arctangent, equal to `atan_unit`.
fn atan_unit_fp(z: i64) -> (r: i64)
    requires
        0 <= z <= SCALE,
    ensures
        r == atan_unit(z as int),
        0 <= r <= QUARTER_PI_MR,
{
    proof {
        lemma_atan_unit_bounds(z as int);
        assert(0 <= ATAN_C * z * (SCALE - z) <= ATAN_C * SCALE * SCALE) by (nonlinear_arith)
            requires
                0 <= z <= SCALE,
        ;
        lemma_div_bounds(ATAN_C * z * (SCALE - z), SCALE as int, (ATAN_C * SCALE) as int);
    }
    (QUARTER_PI_MR * z + (ATAN_C * z * (SCALE - z)) / SCALE) / SCALE
}

/// Executable two-argument arctangent, equal to `atan2_milli`.
pub fn atan2_fp(y: i64, x: i64) -> (r: i64)
    requires
        -2 * COORD_MAX <= y <= 2 * COORD_MAX,
        -2 * COORD_MAX <= x <= 2 * COORD_MAX,
    ensures
        r == atan2_milli(y as int, x as int),
        0 <= r < TWO_PI_MR,
{
    proof {
        lemma_atan2_quadrant(y as int, x as int);
    }
    if y == 0 && x == 0 {
        return 0;
    }
    let ay: i64 = if y < 0 {
        -y
    } else {
        y
    };
    let ax: i64 = if x < 0 {
        -x
    } else {
        x
    };
    proof {
        lemma_octant_atan_bounds(ay as int, ax as int);
    }
    let t: i64 = if ax >= ay {
        proof {
            assert(ay * SCALE <= ax * SCALE) by (nonlinear_arith)
                requires
                    0 <= ay <= ax,
            ;
            lemma_div_bounds(ay * SCALE, ax as int, SCALE as int);
        }
        atan_unit_fp(ay * SCALE / ax)
    } else {
        proof {
            assert(ax * SCALE <= ay * SCALE) by (nonlinear_arith)
                requires
                    0 <= ax <= ay,
            ;
            lemma_div_bounds(ax * SCALE, ay as int, SCALE as int);
        }
        HALF_PI_MR - atan_unit_fp(ax * SCALE / ay)
    };
    if x >= 0 && y >= 0 {
        t
    } else if x < 0 && y >= 0 {
        PI_MR - t
    } else if x < 0 {
        PI_MR + t
    } else if t == 0 {
        0
    } else {
        TWO_PI_MR - t
    }
}

} // verus!
