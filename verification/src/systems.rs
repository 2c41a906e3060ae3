//! Thin per-tick utilities around the core: straight-line projectile
//! movement, the off-screen despawn test, axis-aligned collision, and
//! the explosion animation counter.

use vstd::prelude::*;
use crate::formation::BASE_SPEED;
use crate::geom::div_trunc;
use crate::geom::Vec2;
use crate::geom::WinSize;
use crate::geom::DT_MAX;
use crate::geom::SCALE;

verus! {

/// How far past the window edge a projectile may fly before it despawns,
/// in milli-pixels (200 pixels).
pub const DESPAWN_MARGIN: i64 = 200_000;

/// Frames in the explosion sprite sheet.
pub const EXPLOSION_LEN: usize = 16;

/// One straight-line tick: the position advances by the unit velocity
/// times the elapsed time times the shared base speed.
pub fn moveable_step(pos: Vec2, velocity: Vec2, dt: i64) -> (n: Vec2)
    requires
        pos.in_play(),
        -10 * SCALE <= velocity.x <= 10 * SCALE,
        -10 * SCALE <= velocity.y <= 10 * SCALE,
        0 <= dt <= DT_MAX,
    ensures
        n.x == pos.x + div_trunc(velocity.x * dt * BASE_SPEED, (SCALE as int) * (SCALE as int)),
        n.y == pos.y + div_trunc(velocity.y * dt * BASE_SPEED, (SCALE as int) * (SCALE as int)),
{
    proof {
        assert(-600_000_000 <= velocity.x * dt <= 600_000_000 && -600_000_000 <= velocity.y * dt
            <= 600_000_000) by (nonlinear_arith)
            requires
                -10 * SCALE <= velocity.x <= 10 * SCALE && -10 * SCALE <= velocity.y <= 10 * SCALE
                    && 0 <= dt <= DT_MAX && SCALE == 1000 && DT_MAX == 60_000,
        ;
        assert(-600_000_000_000_000 <= (velocity.x * dt) * BASE_SPEED <= 600_000_000_000_000
            && -600_000_000_000_000 <= (velocity.y * dt) * BASE_SPEED
            <= 600_000_000_000_000) by (nonlinear_arith)
            requires
                -600_000_000 <= velocity.x * dt <= 600_000_000 && -600_000_000 <= velocity.y * dt
                    <= 600_000_000 && BASE_SPEED == 500_000,
        ;
    }
    let px: i64 = velocity.x * dt * BASE_SPEED;
    let py: i64 = velocity.y * dt * BASE_SPEED;
    let mx: i64 = if px >= 0 {
        px / (SCALE * SCALE)
    } else {
        -((-px) / (SCALE * SCALE))
    };
    let my: i64 = if py >= 0 {
        py / (SCALE * SCALE)
    } else {
        -((-py) / (SCALE * SCALE))
    };
    Vec2 { x: pos.x + mx, y: pos.y + my }
}

/// Whether an auto-despawning projectile has left the window plus its
/// margin on any side.
pub fn out_of_bounds(pos: Vec2, win: &WinSize) -> (b: bool)
    requires
        win.wf(),
    ensures
        b == (pos.y > win.h / 2 + DESPAWN_MARGIN || pos.y < -(win.h / 2) - DESPAWN_MARGIN || pos.x
            > win.w / 2 + DESPAWN_MARGIN || pos.x < -(win.w / 2) - DESPAWN_MARGIN),
{
    pos.y > win.h / 2 + DESPAWN_MARGIN || pos.y < -(win.h / 2) - DESPAWN_MARGIN || pos.x > win.w
        / 2 + DESPAWN_MARGIN || pos.x < -(win.w / 2) - DESPAWN_MARGIN
}

/// Two centered axis-aligned boxes overlap on both axes; stated over
/// doubled coordinates so the half-sizes stay exact.
pub open spec fn spec_collide(a_pos: Vec2, a_size: Vec2, b_pos: Vec2, b_size: Vec2) -> bool {
    &&& 2 * a_pos.x - a_size.x < 2 * b_pos.x + b_size.x
    &&& 2 * a_pos.x + a_size.x > 2 * b_pos.x - b_size.x
    &&& 2 * a_pos.y - a_size.y < 2 * b_pos.y + b_size.y
    &&& 2 * a_pos.y + a_size.y > 2 * b_pos.y - b_size.y
}

/// Axis-aligned collision test between a box of full size `a_size`
/// centered at `a_pos` and one of `b_size` at `b_pos`.
pub fn collide(a_pos: Vec2, a_size: Vec2, b_pos: Vec2, b_size: Vec2) -> (hit: bool)
    requires
        a_pos.in_play(),
        b_pos.in_play(),
        0 <= a_size.x <= 10 * SCALE * SCALE,
        0 <= a_size.y <= 10 * SCALE * SCALE,
        0 <= b_size.x <= 10 * SCALE * SCALE,
        0 <= b_size.y <= 10 * SCALE * SCALE,
    ensures
        hit == spec_collide(a_pos, a_size, b_pos, b_size),
{
    2 * a_pos.x - a_size.x < 2 * b_pos.x + b_size.x && 2 * a_pos.x + a_size.x > 2 * b_pos.x
        - b_size.x && 2 * a_pos.y - a_size.y < 2 * b_pos.y + b_size.y && 2 * a_pos.y + a_size.y > 2
        * b_pos.y - b_size.y
}

/// One tick of the explosion animation: the frame index advances, and
/// the explosion is finished once the index leaves the sheet.
pub fn explosion_advance(index: usize) -> (r: (usize, bool))
    requires
        index < EXPLOSION_LEN,
    ensures
        r.0 == index + 1,
        r.1 == (index + 1 >= EXPLOSION_LEN),
{
    (index + 1, index + 1 >= EXPLOSION_LEN)
}

} // verus!
