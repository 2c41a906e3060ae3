//! Player bookkeeping: the alive/respawn state machine, the keyboard to
//! velocity mapping, and the spawn points of the ship and its lasers.

use vstd::prelude::*;
use crate::geom::Vec2;
use crate::geom::WinSize;
use crate::geom::SCALE;

verus! {

/// Milli-seconds a destroyed player waits before respawning.
pub const PLAYER_RESPAWN_DELAY: i64 = 2_000;

/// Full player sprite size in milli-pixels (144 by 75 pixels).
pub const PLAYER_SIZE_X: i64 = 144_000;

pub const PLAYER_SIZE_Y: i64 = 75_000;

/// Sprite scale applied to every sheet, in milli-units (one half).
pub const SPRITE_SCALE: i64 = 500;

/// Latest time the state machine accepts, in milli-seconds: about four
/// months of uptime, so no time sum overflows.
pub const TIME_MAX: i64 = 10_000_000_000;

/// Whether the player ship is alive, and when it was last shot down
/// (milli-seconds since startup; `-SCALE` when it never was).
pub struct PlayerState {
    pub on: bool,
    pub last_shot: i64,
}

impl PlayerState {
    pub open spec fn wf(self) -> bool {
        self.last_shot == -SCALE || 0 <= self.last_shot <= TIME_MAX
    }

    /// The ship was destroyed at `time`.
    pub fn shot(&mut self, time: i64)
        requires
            0 <= time <= TIME_MAX,
        ensures
            final(self).on == false,
            final(self).last_shot == time,
            final(self).wf(),
    {
        self.on = false;
        self.last_shot = time;
    }

    /// A new ship entered the arena.
    pub fn spawned(&mut self)
        ensures
            final(self).on == true,
            final(self).last_shot == -SCALE,
            final(self).wf(),
    {
        self.on = true;
        self.last_shot = -SCALE;
    }

    /// A ship may spawn when none is alive and either none was ever shot
    /// down or the respawn delay has passed.
    pub fn can_respawn(&self, now: i64) -> (b: bool)
        requires
            self.wf(),
            0 <= now <= TIME_MAX,
        ensures
            b == (!self.on && (self.last_shot == -SCALE || now > self.last_shot
                + PLAYER_RESPAWN_DELAY)),
    {
        !self.on && (self.last_shot == -SCALE || now > self.last_shot + PLAYER_RESPAWN_DELAY)
    }
}

impl Default for PlayerState {
    /// No ship alive yet, never shot down.
    fn default() -> (s: PlayerState)
        ensures
            s.on == false,
            s.last_shot == -SCALE,
            s.wf(),
    {
        PlayerState { on: false, last_shot: -SCALE }
    }
}

/// The arrow keys as a unit velocity, left and up winning ties exactly
/// as the original key handler reads them.
pub fn velocity_from_input(left: bool, right: bool, up: bool, down: bool) -> (v: Vec2)
    ensures
        v.x == (if left {
            -SCALE as int
        } else if right {
            SCALE as int
        } else {
            0
        }),
        v.y == (if up {
            SCALE as int
        } else if down {
            -SCALE as int
        } else {
            0
        }),
{
    let x: i64 = if left {
        -SCALE
    } else if right {
        SCALE
    } else {
        0
    };
    let y: i64 = if up {
        SCALE
    } else if down {
        -SCALE
    } else {
        0
    };
    Vec2 { x, y }
}

/// Where a fresh player ship appears: centered, a little above the
/// bottom window edge.
pub fn player_spawn_position(win: &WinSize) -> (p: Vec2)
    requires
        win.wf(),
    ensures
        p.x == 0,
        p.y == -(win.h / 2) + PLAYER_SIZE_Y / 2 * SPRITE_SCALE / (SCALE as int) + 5 * SCALE,
{
    Vec2 { x: 0, y: -(win.h / 2) + PLAYER_SIZE_Y / 2 * SPRITE_SCALE / SCALE + 5 * SCALE }
}

/// Spawn points of the player's two lasers: just above the ship, offset
/// to each wing tip.
pub fn player_laser_spawns(pos: Vec2) -> (r: (Vec2, Vec2))
    requires
        pos.in_play(),
    ensures
        r.0.x == pos.x + (PLAYER_SIZE_X / 2 * SPRITE_SCALE / (SCALE as int) - 5 * SCALE),
        r.1.x == pos.x - (PLAYER_SIZE_X / 2 * SPRITE_SCALE / (SCALE as int) - 5 * SCALE),
        r.0.y == pos.y + 15 * SCALE,
        r.1.y == pos.y + 15 * SCALE,
{
    let off: i64 = PLAYER_SIZE_X / 2 * SPRITE_SCALE / SCALE - 5 * SCALE;
    (Vec2 { x: pos.x + off, y: pos.y + 15 * SCALE }, Vec2 { x: pos.x - off, y: pos.y + 15 * SCALE })
}

/// Spawn point of an enemy laser: just below the enemy.
pub fn enemy_laser_spawn(pos: Vec2) -> (p: Vec2)
    requires
        pos.in_play(),
    ensures
        p.x == pos.x,
        p.y == pos.y - 15 * SCALE,
{
    Vec2 { x: pos.x, y: pos.y - 15 * SCALE }
}

} // verus!
