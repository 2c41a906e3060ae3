use invaders::geom::Vec2;
use invaders::geom::WinSize;
use invaders::player::velocity_from_input;
use invaders::player::enemy_laser_spawn;
use invaders::player::player_laser_spawns;
use invaders::player::player_spawn_position;
use invaders::player::PlayerState;
use invaders::trig::atan2_fp;
use invaders::trig::cos_fp;
use invaders::trig::sin_fp;

#[test]
fn respawn_waits_for_the_delay() {
    let mut state = PlayerState::default();
    assert!(!state.on);
    // Never shot down yet: may spawn at once.
    assert!(state.can_respawn(0));
    state.spawned();
    assert!(state.on);
    assert!(!state.can_respawn(10_000));
    state.shot(10_000);
    assert!(!state.on);
    assert_eq!(state.last_shot, 10_000);
    // Exactly at the two-second boundary: not yet.
    assert!(!state.can_respawn(12_000));
    assert!(state.can_respawn(12_001));
}

#[test]
fn keyboard_maps_to_unit_velocity() {
    assert_eq!(velocity_from_input(false, false, false, false), Vec2 { x: 0, y: 0 });
    assert_eq!(velocity_from_input(true, false, false, true), Vec2 { x: -1_000, y: -1_000 });
    assert_eq!(velocity_from_input(false, true, true, false), Vec2 { x: 1_000, y: 1_000 });
    // Left and up win when both keys of an axis are held.
    assert_eq!(velocity_from_input(true, true, true, true), Vec2 { x: -1_000, y: 1_000 });
}

#[test]
fn spawn_and_laser_positions() {
    let win = WinSize::new(600_000, 700_000);
    assert_eq!(player_spawn_position(&win), Vec2 { x: 0, y: -326_250 });
    let (right, left) = player_laser_spawns(Vec2 { x: 10_000, y: 0 });
    assert_eq!(right, Vec2 { x: 41_000, y: 15_000 });
    assert_eq!(left, Vec2 { x: -21_000, y: 15_000 });
    assert_eq!(enemy_laser_spawn(Vec2 { x: 7_000, y: 9_000 }), Vec2 { x: 7_000, y: -6_000 });
}

#[test]
fn fixed_point_trig_hits_the_axes() {
    assert_eq!(sin_fp(0), 0);
    assert_eq!(sin_fp(1_571), 1_000);
    assert_eq!(sin_fp(3_142), 0);
    assert_eq!(sin_fp(4_713), -1_000);
    assert_eq!(cos_fp(0), 1_000);
    assert_eq!(cos_fp(3_142), -1_000);
    assert_eq!(atan2_fp(0, 0), 0);
    assert_eq!(atan2_fp(0, 1_000), 0);
    assert_eq!(atan2_fp(1_000, 0), 1_571);
    assert_eq!(atan2_fp(0, -1_000), 3_142);
    assert_eq!(atan2_fp(-1_000, 0), 4_713);
    assert_eq!(atan2_fp(1_000, 1_000), 785);
}

#[test]
fn trig_respects_quadrant_signs() {
    let mut a: i64 = 0;
    while a < 6_284 {
        let s: i64 = sin_fp(a);
        let c: i64 = cos_fp(a);
        assert!(-1_000 <= s && s <= 1_000);
        assert!(-1_000 <= c && c <= 1_000);
        if a <= 3_142 {
            assert!(s >= 0);
        } else {
            assert!(s <= 0);
        }
        if a <= 1_571 || a >= 4_713 {
            assert!(c >= 0);
        } else {
            assert!(c <= 0);
        }
        a += 7;
    }
}
