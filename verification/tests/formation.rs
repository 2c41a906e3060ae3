use invaders::formation::Formation;
use invaders::formation::FormationDraw;
use invaders::formation::FormationMaker;
use invaders::geom::Vec2;
use invaders::geom::WinSize;

fn win_600_by_700() -> WinSize {
    // Half-extents (300, 350) pixels, in milli-pixels.
    WinSize::new(600_000, 700_000)
}

fn midpoint_draw(win: &WinSize) -> FormationDraw {
    // The midpoint of every range the allocator draws from.
    let h_span: i64 = win.h / 2 + 100_000;
    FormationDraw {
        start_y: (-h_span + h_span) / 2,
        pivot_x: (-(win.w / 4) + win.w / 4) / 2,
        pivot_y: (0 + (win.h / 3 - 50_000)) / 2,
        radius_x: (80_000 + 150_000) / 2,
    }
}

#[test]
fn scenario_midpoint_allocator() {
    // Half-extents (300, 350), cap 2, a deterministic source returning the
    // midpoint of every range: the template fields are exactly computable,
    // two consecutive calls agree, the third call differs.
    let win = win_600_by_700();
    let mut maker = FormationMaker::default();
    let d = midpoint_draw(&win);
    assert_eq!(d.start_y, 0);
    assert_eq!(d.pivot_x, 0);
    assert_eq!(d.pivot_y, 91_666);
    assert_eq!(d.radius_x, 115_000);

    let first = maker.make_with(&win, &d);
    assert_eq!(first.start, Vec2 { x: 400_000, y: 0 });
    assert_eq!(first.pivot, Vec2 { x: 0, y: 91_666 });
    assert_eq!(first.radius, Vec2 { x: 115_000, y: 100_000 });
    assert_eq!(first.speed, 500_000);
    assert_eq!(first.angle, 6_057);

    let second = maker.make_with(&win, &d);
    assert_eq!(second, first);

    // The cap is reached: the third request draws fresh values.
    let d3 = FormationDraw { pivot_y: 80_000, ..d };
    let third = maker.make_with(&win, &d3);
    assert_ne!(third, first);
    assert_eq!(third.pivot, Vec2 { x: 0, y: 80_000 });

    // The member count was reset to one: the fourth request reuses.
    let fourth = maker.make_with(&win, &d);
    assert_eq!(fourth, third);
}

#[test]
fn allocation_cap_with_real_randomness() {
    let win = win_600_by_700();
    let mut maker = FormationMaker::default();
    let first = maker.make(&win);
    // Whatever was drawn, the documented shape holds.
    assert_eq!(first.start.x, 400_000);
    assert!(-450_000 <= first.start.y && first.start.y < 450_000);
    assert!(-150_000 <= first.pivot.x && first.pivot.x < 150_000);
    assert!(0 <= first.pivot.y && first.pivot.y < 183_333);
    assert!(80_000 <= first.radius.x && first.radius.x < 150_000);
    assert_eq!(first.radius.y, 100_000);
    assert_eq!(first.speed, 500_000);
    // The second member of the batch shares the template exactly.
    let second = maker.make(&win);
    assert_eq!(second, first);
}

#[test]
fn fresh_draw_is_not_handed_back_unchanged() {
    // The initial angle is computed, not copied from any draw field, so a
    // template differs from its draw in a way only the arctangent explains.
    let win = win_600_by_700();
    let mut maker = FormationMaker::default();
    let d = FormationDraw { start_y: 0, pivot_x: 0, pivot_y: 0, radius_x: 100_000 };
    let f = maker.make_with(&win, &d);
    // Start level with the pivot: the initial angle is exactly zero.
    assert_eq!(f.angle, 0);
    let d2 = FormationDraw { start_y: 400_000, pivot_x: 0, pivot_y: 0, radius_x: 100_000 };
    let mut maker2 = FormationMaker::default();
    let g = maker2.make_with(&win, &d2);
    // Start diagonal from the pivot: one eighth turn.
    assert_eq!(g.angle, 785);
}

#[test]
fn spawn_point_mirrors_the_start() {
    let win = win_600_by_700();
    let mut maker = FormationMaker::default();
    let d = midpoint_draw(&win);
    let f = maker.make_with(&win, &d);
    assert_eq!(f.spawn_point(false), Vec2 { x: 400_000, y: 0 });
    assert_eq!(f.spawn_point(true), Vec2 { x: -400_000, y: 0 });
}

#[test]
fn formation_is_a_plain_copyable_value() {
    let f = Formation {
        start: Vec2 { x: 1, y: 2 },
        radius: Vec2 { x: 3, y: 4 },
        pivot: Vec2 { x: 5, y: 6 },
        speed: 7,
        angle: 8,
    };
    let g = f;
    assert_eq!(f, g);
}
