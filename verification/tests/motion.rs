use invaders::formation::Formation;
use invaders::geom::Vec2;
use invaders::geom::WinSize;
use invaders::systems::collide;
use invaders::systems::explosion_advance;
use invaders::systems::moveable_step;
use invaders::systems::out_of_bounds;

fn circle_formation() -> Formation {
    // Enemy template of the integrator scenario: pivot at the origin,
    // circular path of radius 100 pixels, speed 500, phase angle zero.
    Formation {
        start: Vec2 { x: 400_000, y: 0 },
        radius: Vec2 { x: 100_000, y: 100_000 },
        pivot: Vec2 { x: 0, y: 0 },
        speed: 500_000,
        angle: 0,
    }
}

#[test]
fn scenario_far_enemy_converges_without_overshoot() {
    // Enemy at (400, 0), dt = 1/60 s: it moves its full travel budget
    // toward the ellipse point at the candidate angle, never past it on
    // either axis, and the phase angle stays frozen because the enemy is
    // still far from the curve.
    let mut f = circle_formation();
    let pos = Vec2 { x: 400_000, y: 0 };
    let new_pos = f.integrate(pos, 16);

    // Candidate angle: a clockwise sweep of 50 milli-radians.
    // Target: (99_800, -5_000); distance about 300.24 pixels; budget 8 px.
    assert_eq!(new_pos, Vec2 { x: 392_002, y: -133 });
    // Toward the target on each axis, not past it.
    assert!(99_800 <= new_pos.x && new_pos.x <= 400_000);
    assert!(-5_000 <= new_pos.y && new_pos.y <= 0);
    // Far from the curve (300 px >= the 200 px threshold): angle frozen.
    assert_eq!(f.angle, 0);
    // The template itself is untouched.
    assert_eq!(f.start, Vec2 { x: 400_000, y: 0 });
    assert_eq!(f.radius, Vec2 { x: 100_000, y: 100_000 });
    assert_eq!(f.pivot, Vec2 { x: 0, y: 0 });
    assert_eq!(f.speed, 500_000);
}

#[test]
fn enemy_on_target_stays_and_advances_its_angle() {
    // Exactly on the tick's target point: the position does not move and
    // the candidate angle is committed, since the distance is zero.
    let mut f = circle_formation();
    let pos = Vec2 { x: 99_800, y: -5_000 };
    let new_pos = f.integrate(pos, 16);
    assert_eq!(new_pos, pos);
    assert_eq!(f.angle, 6_234);
}

#[test]
fn near_enemy_advances_its_angle() {
    // Within the freeze threshold (200 pixels here) but not on the target:
    // the angle advances while the position still closes in.
    let mut f = circle_formation();
    let pos = Vec2 { x: 150_000, y: 0 };
    let new_pos = f.integrate(pos, 16);
    assert_eq!(f.angle, 6_234);
    assert!(99_800 <= new_pos.x && new_pos.x < 150_000);
}

#[test]
fn zero_dt_changes_nothing() {
    let mut f = circle_formation();
    let pos = Vec2 { x: 123_456, y: -7_890 };
    let new_pos = f.integrate(pos, 0);
    assert_eq!(new_pos, pos);
    assert_eq!(f.angle, 0);
}

#[test]
fn left_spawned_enemy_sweeps_the_other_way() {
    let mut f = circle_formation();
    f.start.x = -400_000;
    let pos = Vec2 { x: 99_800, y: 5_000 };
    // Counter-clockwise: the candidate angle is +50 milli-radians, and on
    // the (mirrored) target the angle commits.
    let new_pos = f.integrate(pos, 16);
    assert_eq!(new_pos, pos);
    assert_eq!(f.angle, 50);
}

#[test]
fn moveable_step_moves_by_velocity_budget() {
    // A laser at unit downward velocity, one 17 ms tick at base speed 500:
    // 8.5 pixels down, exactly.
    let pos = Vec2 { x: 10_000, y: 20_000 };
    let vel = Vec2 { x: 0, y: -1_000 };
    let n = moveable_step(pos, vel, 17);
    assert_eq!(n, Vec2 { x: 10_000, y: 11_500 });
    let up = moveable_step(pos, Vec2 { x: 1_000, y: 1_000 }, 17);
    assert_eq!(up, Vec2 { x: 18_500, y: 28_500 });
}

#[test]
fn out_of_bounds_uses_the_margin() {
    let win = WinSize::new(600_000, 700_000);
    assert!(!out_of_bounds(Vec2 { x: 0, y: 0 }, &win));
    assert!(!out_of_bounds(Vec2 { x: 500_000, y: 0 }, &win));
    assert!(out_of_bounds(Vec2 { x: 500_001, y: 0 }, &win));
    assert!(out_of_bounds(Vec2 { x: 0, y: -550_001 }, &win));
    assert!(!out_of_bounds(Vec2 { x: 0, y: 550_000 }, &win));
}

#[test]
fn collide_tests_both_axes() {
    let size = Vec2 { x: 20_000, y: 10_000 };
    let a = Vec2 { x: 0, y: 0 };
    assert!(collide(a, size, Vec2 { x: 19_999, y: 0 }, size));
    assert!(!collide(a, size, Vec2 { x: 20_000, y: 0 }, size));
    assert!(collide(a, size, Vec2 { x: 0, y: 9_999 }, size));
    assert!(!collide(a, size, Vec2 { x: 0, y: 10_000 }, size));
    assert!(!collide(a, size, Vec2 { x: 20_000, y: 10_000 }, size));
}

#[test]
fn explosion_runs_through_its_sheet() {
    assert_eq!(explosion_advance(0), (1, false));
    assert_eq!(explosion_advance(14), (15, false));
    assert_eq!(explosion_advance(15), (16, true));
}
