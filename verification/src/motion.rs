//! The per-tick motion integrator: each enemy eases toward the point of
//! its ellipse at a candidate phase angle, moving at most the tick's
//! travel budget and never overshooting per axis, and commits the
//! candidate angle only once it is close enough to the curve.

use vstd::prelude::*;
use vstd::arithmetic::div_mod::lemma_div_is_ordered_by_denominator;
use vstd::arithmetic::div_mod::lemma_div_pos_is_pos;
use crate::formation::fresh_shape;
use crate::formation::Formation;
use crate::geom::div_trunc;
use crate::geom::lemma_div_bounds;
use crate::geom::lemma_div_trunc_bounds;
use crate::geom::scale_down;
use crate::geom::sqrt_floor;
use crate::geom::isqrt;
use crate::geom::Vec2;
use crate::geom::WinSize;
use crate::geom::COORD_MAX;
use crate::geom::DT_MAX;
use crate::geom::SCALE;
use crate::geom::SPEED_MAX;
use crate::trig::cos_fp;
use crate::trig::cos_milli;
use crate::trig::sin_fp;
use crate::trig::sin_milli;
use crate::trig::atan2_milli;
use crate::trig::lemma_atan2_halfplane;
use crate::trig::HALF_PI_MR;
use crate::trig::TWO_PI_MR;

verus! {

/// Sweep direction around the ellipse: enemies spawned on the left run
/// counter-clockwise, those on the right clockwise.
pub open spec fn spec_direction(f: Formation) -> int {
    if f.start.x < 0 {
        1
    } else {
        -1
    }
}

/// The tick's travel budget in milli-pixels: elapsed time times speed.
pub open spec fn spec_max_step(f: Formation, dt: int) -> int {
    f.speed * dt / (SCALE as int)
}

pub open spec fn spec_min_radius(f: Formation) -> int {
    if f.radius.x <= f.radius.y {
        f.radius.x as int
    } else {
        f.radius.y as int
    }
}

/// Magnitude of the tick's angular advance: the travel budget as a
/// fraction of a quarter arc of the smaller radius, wrapped below a
/// full turn.
pub open spec fn spec_rate(f: Formation, dt: int) -> int {
    (f.speed * dt * SCALE / (spec_min_radius(f) * HALF_PI_MR)) % (TWO_PI_MR as int)
}

/// The phase angle proposed for this tick, normalized to `[0, TWO_PI_MR)`.
pub open spec fn spec_candidate_angle(f: Formation, dt: int) -> int {
    if spec_direction(f) == 1 {
        if f.angle + spec_rate(f, dt) >= TWO_PI_MR {
            f.angle + spec_rate(f, dt) - TWO_PI_MR
        } else {
            f.angle + spec_rate(f, dt)
        }
    } else {
        if f.angle - spec_rate(f, dt) < 0 {
            f.angle - spec_rate(f, dt) + TWO_PI_MR
        } else {
            f.angle - spec_rate(f, dt)
        }
    }
}

/// The ellipse point at phase angle `a`.
pub open spec fn spec_target_at(f: Formation, a: int) -> (int, int) {
    (
        f.pivot.x + div_trunc(f.radius.x * cos_milli(a), SCALE as int),
        f.pivot.y + div_trunc(f.radius.y * sin_milli(a), SCALE as int),
    )
}

/// This tick's target: the ellipse point at the candidate angle.
pub open spec fn spec_target(f: Formation, dt: int) -> (int, int) {
    spec_target_at(f, spec_candidate_angle(f, dt))
}

/// Euclidean distance (rounded down) from `pos` to this tick's target.
pub open spec fn spec_distance(f: Formation, pos: Vec2, dt: int) -> int {
    let dx = pos.x - spec_target(f, dt).0;
    let dy = pos.y - spec_target(f, dt).1;
    sqrt_floor(dx * dx + dy * dy)
}

/// Below this distance the enemy counts as on the curve and its phase
/// angle may advance.
pub open spec fn spec_threshold(f: Formation, dt: int) -> int {
    spec_max_step(f, dt) * f.speed / (20 * (SCALE as int))
}

/// How far one axis moves: its proportional share of the travel budget,
/// capped so the axis never crosses its target coordinate.
pub open spec fn spec_axis_step(delta: int, ms: int, dist: int) -> int {
    let mag = if delta >= 0 {
        delta
    } else {
        -delta
    };
    let share = if dist == 0 {
        0
    } else {
        mag * ms / dist
    };
    if share <= mag {
        share
    } else {
        mag
    }
}

pub open spec fn spec_new_x(f: Formation, pos: Vec2, dt: int) -> int {
    let dx = pos.x - spec_target(f, dt).0;
    let step = spec_axis_step(dx, spec_max_step(f, dt), spec_distance(f, pos, dt));
    if dx >= 0 {
        pos.x - step
    } else {
        pos.x + step
    }
}

pub open spec fn spec_new_y(f: Formation, pos: Vec2, dt: int) -> int {
    let dy = pos.y - spec_target(f, dt).1;
    let step = spec_axis_step(dy, spec_max_step(f, dt), spec_distance(f, pos, dt));
    if dy >= 0 {
        pos.y - step
    } else {
        pos.y + step
    }
}

/// One coordinate approaches another monotonically: the new value stays
/// between the old value and the target, so a step never overshoots.
pub open spec fn approaches(p: int, n: int, t: int) -> bool {
    &&& p <= t ==> p <= n <= t
    &&& p >= t ==> t <= n <= p
}

impl Formation {
    /// One simulation tick. Returns the new position and commits the
    /// candidate phase angle exactly when the current position is within
    /// the freeze threshold of the target; every template field but the
    /// angle is left untouched.
    pub fn integrate(&mut self, pos: Vec2, dt: i64) -> (new_pos: Vec2)
        requires
            old(self).wf(),
            pos.in_play(),
            0 <= dt <= DT_MAX,
        ensures
            final(self).wf(),
            final(self).start == old(self).start,
            final(self).pivot == old(self).pivot,
            final(self).radius == old(self).radius,
            final(self).speed == old(self).speed,
            new_pos.x == spec_new_x(*old(self), pos, dt as int),
            new_pos.y == spec_new_y(*old(self), pos, dt as int),
            new_pos.in_play(),
            final(self).angle == (if spec_distance(*old(self), pos, dt as int) < spec_threshold(
                *old(self),
                dt as int,
            ) {
                spec_candidate_angle(*old(self), dt as int)
            } else {
                old(self).angle as int
            }),
            approaches(pos.x as int, new_pos.x as int, spec_target(*old(self), dt as int).0),
            approaches(pos.y as int, new_pos.y as int, spec_target(*old(self), dt as int).1),
            pos.x == spec_target(*old(self), dt as int).0 && pos.y == spec_target(
                *old(self),
                dt as int,
            ).1 ==> new_pos == pos,
    {
        let speed: i64 = self.speed;
        proof {
            assert(0 <= speed * dt <= 6_000_000_000_000) by (nonlinear_arith)
                requires
                    0 <= speed <= SPEED_MAX && 0 <= dt <= DT_MAX && SPEED_MAX == 100_000_000
                        && DT_MAX == 60_000,
            ;
            lemma_div_bounds(speed * dt, SCALE as int, 6_000_000_000);
        }
        let ms: i64 = speed * dt / SCALE;
        let min_r: i64 = if self.radius.x <= self.radius.y {
            self.radius.x
        } else {
            self.radius.y
        };
        proof {
            assert(0 <= speed * dt * SCALE <= 6_000_000_000_000_000 && 1571 <= min_r * HALF_PI_MR
                <= 200_000_000_000) by (nonlinear_arith)
                requires
                    0 <= speed * dt <= 6_000_000_000_000 && SCALE == 1000 && 1 <= min_r
                        <= COORD_MAX && COORD_MAX == 100_000_000 && HALF_PI_MR == 1571,
            ;
            lemma_div_pos_is_pos(speed * dt * SCALE, min_r * HALF_PI_MR);
        }
        let rate: i64 = ((speed * dt * SCALE) / (min_r * HALF_PI_MR)) % TWO_PI_MR;
        let cand: i64 = if self.start.x < 0 {
            let c: i64 = self.angle + rate;
            if c >= TWO_PI_MR {
                c - TWO_PI_MR
            } else {
                c
            }
        } else {
            let c: i64 = self.angle - rate;
            if c < 0 {
                c + TWO_PI_MR
            } else {
                c
            }
        };
        let cosv: i64 = cos_fp(cand);
        let sinv: i64 = sin_fp(cand);
        proof {
            assert(-COORD_MAX * SCALE <= self.radius.x * cosv <= COORD_MAX * SCALE && -COORD_MAX
                * SCALE <= self.radius.y * sinv <= COORD_MAX * SCALE) by (nonlinear_arith)
                requires
                    0 < self.radius.x <= COORD_MAX && 0 < self.radius.y <= COORD_MAX && -SCALE
                        <= cosv <= SCALE && -SCALE <= sinv <= SCALE && SCALE == 1000 && COORD_MAX
                        == 100_000_000,
            ;
            lemma_div_trunc_bounds(self.radius.x * cosv, SCALE as int, COORD_MAX as int);
            lemma_div_trunc_bounds(self.radius.y * sinv, SCALE as int, COORD_MAX as int);
        }
        let tx: i64 = self.pivot.x + scale_down(self.radius.x * cosv);
        let ty: i64 = self.pivot.y + scale_down(self.radius.y * sinv);
        let dx: i64 = pos.x - tx;
        let dy: i64 = pos.y - ty;
        proof {
            assert(0 <= dx * dx <= 160_000_000_000_000_000 && 0 <= dy * dy
                <= 160_000_000_000_000_000) by (nonlinear_arith)
                requires
                    -400_000_000 <= dx <= 400_000_000 && -400_000_000 <= dy <= 400_000_000,
            ;
        }
        let dist: i64 = isqrt(dx * dx + dy * dy);
        let adx: i64 = if dx >= 0 {
            dx
        } else {
            -dx
        };
        let ady: i64 = if dy >= 0 {
            dy
        } else {
            -dy
        };
        let sx: i64 = if dist == 0 {
            0
        } else {
            proof {
                assert(0 <= adx * ms) by (nonlinear_arith)
                    requires
                        0 <= adx && 0 <= ms,
                ;
                assert(adx * ms <= 2_400_000_000_000_000_000) by (nonlinear_arith)
                    requires
                        0 <= adx <= 400_000_000 && 0 <= ms <= 6_000_000_000,
                ;
                lemma_div_pos_is_pos(adx * ms, dist as int);
            }
            let q: i64 = (adx * ms) / dist;
            if q <= adx {
                q
            } else {
                adx
            }
        };
        let sy: i64 = if dist == 0 {
            0
        } else {
            proof {
                assert(0 <= ady * ms && ady * ms <= 2_400_000_000_000_000_000) by (nonlinear_arith)
                    requires
                        0 <= ady <= 400_000_000 && 0 <= ms <= 6_000_000_000,
                ;
                lemma_div_pos_is_pos(ady * ms, dist as int);
            }
            let q: i64 = (ady * ms) / dist;
            if q <= ady {
                q
            } else {
                ady
            }
        };
        let nx: i64 = if dx >= 0 {
            pos.x - sx
        } else {
            pos.x + sx
        };
        let ny: i64 = if dy >= 0 {
            pos.y - sy
        } else {
            pos.y + sy
        };
        proof {
            assert(0 <= ms * speed <= 600_000_000_000_000_000) by (nonlinear_arith)
                requires
                    0 <= ms <= 6_000_000_000 && 0 <= speed <= 100_000_000,
            ;
            lemma_div_pos_is_pos(ms * speed, 20 * (SCALE as int));
        }
        let thr: i64 = ms * speed / (20 * SCALE);
        if dist < thr {
            self.angle = cand;
        }
        Vec2 { x: nx, y: ny }
    }
}

/// The target point at a freshly drawn template's initial phase angle
/// lies, per axis, on the same side of the pivot as the spawn point: the
/// initial angle really points from the pivot toward the start.
pub proof fn lemma_initial_angle_halfplane(f: Formation)
    requires
        f.wf(),
        f.angle == atan2_milli(f.start.y - f.pivot.y, f.start.x - f.pivot.x),
    ensures
        f.start.x > f.pivot.x ==> spec_target_at(f, f.angle as int).0 >= f.pivot.x,
        f.start.x < f.pivot.x ==> spec_target_at(f, f.angle as int).0 <= f.pivot.x,
        f.start.y > f.pivot.y ==> spec_target_at(f, f.angle as int).1 >= f.pivot.y,
        f.start.y < f.pivot.y ==> spec_target_at(f, f.angle as int).1 <= f.pivot.y,
{
    lemma_atan2_halfplane(f.start.y - f.pivot.y, f.start.x - f.pivot.x);
    let c = cos_milli(f.angle as int);
    let s = sin_milli(f.angle as int);
    assert((c >= 0 ==> f.radius.x * c >= 0) && (c <= 0 ==> f.radius.x * c <= 0) && (s >= 0
        ==> f.radius.y * s >= 0) && (s <= 0 ==> f.radius.y * s <= 0)) by (nonlinear_arith)
        requires
            f.radius.x > 0 && f.radius.y > 0,
    ;
    if f.radius.x * c >= 0 {
        lemma_div_pos_is_pos(f.radius.x * c, SCALE as int);
    } else {
        lemma_div_pos_is_pos(-(f.radius.x * c), SCALE as int);
    }
    if f.radius.y * s >= 0 {
        lemma_div_pos_is_pos(f.radius.y * s, SCALE as int);
    } else {
        lemma_div_pos_is_pos(-(f.radius.y * s), SCALE as int);
    }
}

/// A freshly drawn template's target at its initial angle lies on the
/// spawn point's side of the pivot: horizontally always toward the spawn
/// edge (the spawn point sits beyond the pivot range), vertically on the
/// side the spawn point was drawn on.
pub proof fn lemma_fresh_target_halfplane(f: Formation, win: WinSize)
    requires
        win.wf(),
        f.wf(),
        fresh_shape(f, win),
    ensures
        f.start.x > f.pivot.x,
        spec_target_at(f, f.angle as int).0 >= f.pivot.x,
        f.start.y > f.pivot.y ==> spec_target_at(f, f.angle as int).1 >= f.pivot.y,
        f.start.y < f.pivot.y ==> spec_target_at(f, f.angle as int).1 <= f.pivot.y,
{
    lemma_div_is_ordered_by_denominator(win.w as int, 2, 4);
    lemma_div_pos_is_pos(win.w as int, 4);
    lemma_initial_angle_halfplane(f);
}

} // verus!
