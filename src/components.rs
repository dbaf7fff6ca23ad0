use vstd::prelude::*;

use crate::consts::{
    CANNON_Y, COORD_LIMIT, DEFAULT_DIFFICULTY, SPRITE_SIZE, START_LIVES,
};
use crate::geometry::{Size, Transform};
use crate::random::random_below;
use crate::text::{decimal_text, signed_decimal};

verus! {

/// The player's session record: lives left and score earned.
pub struct Player {
    pub lifes: i8,
    pub score: i32,
}

impl Player {
    /// Lives stay within the starting count and the score never goes negative.
    pub open spec fn wf(&self) -> bool {
        &&& 0 <= self.lifes <= START_LIVES
        &&& 0 <= self.score
    }

    /// A fresh session: three lives, no score.
    pub fn new() -> (p: Self)
        ensures
            p.lifes == START_LIVES,
            p.score == 0,
            p.wf(),
    {
        Self { lifes: START_LIVES, score: 0 }
    }

    /// Takes one life; a player with no lives left stays at zero.
    pub fn kill(&mut self)
        ensures
            final(self).score == old(self).score,
            old(self).lifes > 0 ==> final(self).lifes == old(self).lifes - 1,
            old(self).lifes <= 0 ==> final(self).lifes == old(self).lifes,
    {
        if self.lifes > 0 {
            self.lifes = self.lifes - 1;
        }
    }

    /// The lives left, as the text the lives readout shows.
    pub fn lifes_left(&self) -> (r: String)
        ensures
            r@ == signed_decimal(self.lifes as int),
    {
        decimal_text(self.lifes as i64)
    }

    /// Credits `add` points.
    pub fn add_to_score(&mut self, add: i32)
        requires
            i32::MIN <= old(self).score + add <= i32::MAX,
        ensures
            final(self).score == old(self).score + add,
            final(self).lifes == old(self).lifes,
    {
        self.score = self.score + add;
    }

    /// The score, as the text the score readout shows.
    pub fn score(&self) -> (r: String)
        ensures
            r@ == signed_decimal(self.score as int),
    {
        decimal_text(self.score as i64)
    }
}

/// The sweep of the formation: its horizontal direction, the distance it
/// covers per fixed tick, and whether the next fixed tick is a descent.
#[derive(Clone, Copy, Debug, PartialEq, Eq)]
pub struct EnemyMovement {
    pub direction: i64,
    pub speed: i64,
    pub advance: bool,
}

impl EnemyMovement {
    /// The direction is a unit sign and the speed a distance the world can hold.
    pub open spec fn wf(&self) -> bool {
        &&& (self.direction == 1 || self.direction == -1)
        &&& 0 <= self.speed <= COORD_LIMIT
    }

    /// The sweep a level starts with: rightwards, a quarter sprite per tick.
    pub fn new() -> (m: Self)
        ensures
            m.direction == 1,
            m.speed == SPRITE_SIZE / 4,
            !m.advance,
            m.wf(),
    {
        Self { direction: 1, speed: SPRITE_SIZE / 4, advance: false }
    }

    /// Turns the sweep around.
    pub fn reverse_direction(&mut self)
        requires
            old(self).direction == 1 || old(self).direction == -1,
        ensures
            final(self).direction == -old(self).direction,
            final(self).speed == old(self).speed,
            final(self).advance == old(self).advance,
    {
        self.direction = -self.direction;
    }
}

/// Emitted on the fixed tick in which the formation touched a wall.
#[derive(Clone, Copy, Debug, PartialEq, Eq)]
pub struct EnemyAdvancement;

/// Emitted when the laser destroys a target.
#[derive(Clone, Copy, Debug, PartialEq, Eq)]
pub struct HitEvent;

/// Emitted when a bomb strikes the cannon.
#[derive(Clone, Copy, Debug, PartialEq, Eq)]
pub struct PlayerHitEvent;

/// Marker of the player's ship.
#[derive(Clone, Copy, Debug, PartialEq, Eq)]
pub struct Cannon;

/// The player's ship as it stands in the world.
#[derive(Clone, Copy, Debug, PartialEq, Eq)]
pub struct CannonBundle {
    pub marker: Cannon,
    pub transform: Transform,
    pub size: Size,
}

impl CannonBundle {
    /// A cannon at the centre of its row, with its 26 by 16 hit box.
    pub fn new() -> (c: Self)
        ensures
            c.transform == (Transform { x: 0, y: CANNON_Y }),
            c.size == (Size { width: 26, height: 16 }),
    {
        Self {
            marker: Cannon,
            transform: Transform { x: 0, y: CANNON_Y },
            size: Size { width: 26, height: 16 },
        }
    }
}

/// Marker of the player's projectile.
#[derive(Clone, Copy, Debug, PartialEq, Eq)]
pub struct LaserBeam;

/// The player's projectile as it stands in the world.
#[derive(Clone, Copy, Debug, PartialEq, Eq)]
pub struct LaserBeamBundle {
    pub marker: LaserBeam,
    pub transform: Transform,
    pub size: Size,
}

impl LaserBeamBundle {
    /// The beam that leaves a cannon standing at `at`.
    pub open spec fn new_spec(at: Transform) -> Self {
        LaserBeamBundle {
            marker: LaserBeam,
            transform: Transform { x: at.x, y: (at.y + SPRITE_SIZE / 2) as i64 },
            size: Size { width: 1, height: 10 },
        }
    }

    /// A 1 by 10 beam leaving a cannon centred at `(x, y)`, half a sprite above it.
    pub fn new(x: i64, y: i64) -> (l: Self)
        requires
            y <= i64::MAX - SPRITE_SIZE / 2,
        ensures
            l == Self::new_spec(Transform { x: x, y: y }),
    {
        Self {
            marker: LaserBeam,
            transform: Transform { x, y: y + SPRITE_SIZE / 2 },
            size: Size { width: 1, height: 10 },
        }
    }
}

/// Marker of an entity that the laser can destroy.
#[derive(Clone, Copy, Debug, PartialEq, Eq)]
pub struct Hitable;

/// Marker of a falling bomb.
#[derive(Clone, Copy, Debug, PartialEq, Eq)]
pub struct Bomb;

/// A falling bomb as it stands in the world.
#[derive(Clone, Copy, Debug, PartialEq, Eq)]
pub struct BombBundle {
    pub marker: Bomb,
    pub transform: Transform,
    pub size: Size,
}

impl BombBundle {
    /// The bomb dropped from a point `at`.
    pub open spec fn new_spec(at: Transform) -> Self {
        BombBundle { marker: Bomb, transform: at, size: Size { width: 10, height: 30 } }
    }

    /// A 10 by 30 bomb centred at `(x, y)`.
    pub fn new(x: i64, y: i64) -> (b: Self)
        ensures
            b == Self::new_spec(Transform { x: x, y: y }),
    {
        Self { marker: Bomb, transform: Transform { x, y }, size: Size { width: 10, height: 30 } }
    }
}

/// The three kinds of invader.
#[derive(Clone, Copy, Debug, PartialEq, Eq, Structural)]
pub enum EnemyKind {
    Squid,
    Crab,
    Octopus,
}

/// An invader's kind, its bounty, and the extents of its hit box.
#[derive(Clone, Copy, Debug, PartialEq, Eq)]
pub struct Enemy {
    pub kind: EnemyKind,
    pub points: i32,
    pub width: i64,
    pub height: i64,
}

impl Enemy {
    /// The front-row invader: 30 points, 16 by 16.
    pub fn squid() -> (e: Self)
        ensures
            e == (Enemy { kind: EnemyKind::Squid, points: 30, width: 16, height: 16 }),
    {
        Enemy { kind: EnemyKind::Squid, points: 30, width: 16, height: 16 }
    }

    /// The middle-row invader: 20 points, 11 by 16.
    pub fn crab() -> (e: Self)
        ensures
            e == (Enemy { kind: EnemyKind::Crab, points: 20, width: 11, height: 16 }),
    {
        Enemy { kind: EnemyKind::Crab, points: 20, width: 11, height: 16 }
    }

    /// The back-row invader: 10 points, 24 by 16.
    pub fn octopus() -> (e: Self)
        ensures
            e == (Enemy { kind: EnemyKind::Octopus, points: 10, width: 24, height: 16 }),
    {
        Enemy { kind: EnemyKind::Octopus, points: 10, width: 24, height: 16 }
    }

    /// The name of the sprite sheet this invader is drawn from.
    pub fn sprite_file_name(&self) -> (r: &'static str)
        ensures
            r@ == sprite_file_name_of(self.kind),
    {
        proof {
            reveal_strlit("squid.png");
            reveal_strlit("crab.png");
            reveal_strlit("octopus.png");
        }
        match self.kind {
            EnemyKind::Squid => "squid.png",
            EnemyKind::Crab => "crab.png",
            EnemyKind::Octopus => "octopus.png",
        }
    }
}

pub open spec fn sprite_file_name_of(kind: EnemyKind) -> Seq<char> {
    match kind {
        EnemyKind::Squid => seq!['s', 'q', 'u', 'i', 'd', '.', 'p', 'n', 'g'],
        EnemyKind::Crab => seq!['c', 'r', 'a', 'b', '.', 'p', 'n', 'g'],
        EnemyKind::Octopus => seq!['o', 'c', 't', 'o', 'p', 'u', 's', '.', 'p', 'n', 'g'],
    }
}

/// An invader's cell in the formation: column `x`, row `y`.
#[derive(Clone, Copy, Debug, PartialEq, Eq)]
pub struct EnemyPosition {
    pub x: u8,
    pub y: u8,
}

/// Points a target awards when destroyed.
#[derive(Clone, Copy, Debug, PartialEq, Eq)]
pub struct Hitpoints(pub i32);

/// An invader as it stands in the world.
#[derive(Clone, Copy, Debug, PartialEq, Eq)]
pub struct EnemyBundle {
    pub marker: Enemy,
    pub transform: Transform,
    pub position: EnemyPosition,
    pub hitable: Hitable,
    pub size: Size,
    pub hitpoints: Hitpoints,
}

impl EnemyBundle {
    /// The invader `new` builds.
    pub open spec fn new_spec(enemy: Enemy, x: i64, y: i64) -> Self {
        EnemyBundle {
            marker: enemy,
            transform: Transform { x: x, y: y },
            position: EnemyPosition { x: 0, y: 0 },
            hitable: Hitable,
            size: Size { width: enemy.width, height: enemy.height },
            hitpoints: Hitpoints(enemy.points),
        }
    }

    /// An invader of the given kind centred at `(x, y)`, in cell (0, 0); it
    /// is worth its kind's points.
    pub fn new(enemy: Enemy, x: i64, y: i64) -> (b: Self)
        ensures
            b == Self::new_spec(enemy, x, y),
    {
        Self {
            marker: enemy,
            transform: Transform { x, y },
            position: EnemyPosition { x: 0, y: 0 },
            hitable: Hitable,
            size: Size { width: enemy.width, height: enemy.height },
            hitpoints: Hitpoints(enemy.points),
        }
    }
}

/// A repeating countdown that drives UFO spawns.
#[derive(Clone, Copy, Debug, PartialEq, Eq)]
pub struct UfoSpawnTimer {
    pub duration_ms: u64,
    pub elapsed_ms: u64,
}

/// What a repeating timer holds after `delta` more milliseconds.
pub open spec fn timer_after(t: UfoSpawnTimer, delta: int) -> UfoSpawnTimer {
    UfoSpawnTimer {
        duration_ms: t.duration_ms,
        elapsed_ms: ((t.elapsed_ms + delta) % (t.duration_ms as int)) as u64,
    }
}

impl UfoSpawnTimer {
    /// The period is positive and the time run since the last expiry is
    /// shorter than it.
    pub open spec fn wf(&self) -> bool {
        &&& self.duration_ms > 0
        &&& self.elapsed_ms < self.duration_ms
    }

    /// A timer of the given period that has just started.
    pub fn new(duration_ms: u64) -> (t: Self)
        requires
            duration_ms > 0,
        ensures
            t.duration_ms == duration_ms,
            t.elapsed_ms == 0,
            t.wf(),
    {
        Self { duration_ms, elapsed_ms: 0 }
    }

    /// Runs the timer on by `delta_ms`; tells whether it expired on the way.
    pub fn tick(&mut self, delta_ms: u64) -> (just_finished: bool)
        requires
            old(self).wf(),
        ensures
            *final(self) == timer_after(*old(self), delta_ms as int),
            final(self).wf(),
            just_finished == (old(self).elapsed_ms + delta_ms >= old(self).duration_ms),
    {
        let total: u128 = self.elapsed_ms as u128 + delta_ms as u128;
        let rest = total % (self.duration_ms as u128);
        self.elapsed_ms = rest as u64;
        total >= self.duration_ms as u128
    }
}

/// Marker of the bonus UFO.
#[derive(Clone, Copy, Debug, PartialEq, Eq)]
pub struct Ufo;

/// The unit sign of a UFO's horizontal travel.
#[derive(Clone, Copy, Debug, PartialEq, Eq)]
pub struct UfoDirection(pub i64);

/// The bounties a UFO may carry.
pub open spec fn ufo_bounty(index: int) -> i32 {
    if index == 0 {
        50
    } else if index == 1 {
        100
    } else if index == 2 {
        150
    } else if index == 3 {
        200
    } else {
        300
    }
}

/// Number of bounties a UFO may carry.
pub const UFO_BOUNTY_COUNT: usize = 5;

/// A UFO as it stands in the world.
#[derive(Clone, Copy, Debug, PartialEq, Eq)]
pub struct UfoBundle {
    pub marker: Ufo,
    pub transform: Transform,
    pub hitable: Hitable,
    pub direction: UfoDirection,
    pub size: Size,
    pub hitpoints: Hitpoints,
}

impl UfoBundle {
    /// The UFO `with_bounty` builds.
    pub open spec fn with_bounty_spec(x: i64, y: i64, direction: i64, bounty_index: int) -> Self {
        UfoBundle {
            marker: Ufo,
            transform: Transform { x: x, y: y },
            hitable: Hitable,
            direction: UfoDirection(direction),
            size: Size { width: 32, height: 14 },
            hitpoints: Hitpoints(ufo_bounty(bounty_index)),
        }
    }

    /// A 32 by 14 UFO centred at `(x, y)`, travelling along `direction`, worth
    /// the bounty at `bounty_index` of 50, 100, 150, 200, 300.
    pub fn with_bounty(x: i64, y: i64, direction: i64, bounty_index: usize) -> (u: Self)
        requires
            bounty_index < UFO_BOUNTY_COUNT,
        ensures
            u == Self::with_bounty_spec(x, y, direction, bounty_index as int),
    {
        let points: i32 = match bounty_index {
            0 => 50,
            1 => 100,
            2 => 150,
            3 => 200,
            _ => 300,
        };
        Self {
            marker: Ufo,
            transform: Transform { x, y },
            hitable: Hitable,
            direction: UfoDirection(direction),
            size: Size { width: 32, height: 14 },
            hitpoints: Hitpoints(points),
        }
    }
}

impl UfoBundle {
    /// A UFO centred at `(x, y)`, travelling along `direction`, with a bounty
    /// drawn at random among 50, 100, 150, 200, 300.
    pub fn new(x: i64, y: i64, direction: i64) -> (u: Self)
        ensures
            exists|k: int|
                0 <= k < UFO_BOUNTY_COUNT && u == #[trigger] Self::with_bounty_spec(
                    x,
                    y,
                    direction,
                    k,
                ),
    {
        let k = random_below(UFO_BOUNTY_COUNT as u32) as usize;
        Self::with_bounty(x, y, direction, k)
    }
}

/// The lives readout and the text it shows.
#[derive(Clone, Debug, PartialEq, Eq)]
pub struct LifesUI {
    pub text: String,
}

/// The score readout and the text it shows.
#[derive(Clone, Debug, PartialEq, Eq)]
pub struct ScoreUI {
    pub text: String,
}

/// Paces the fixed step: each unit is ten milliseconds of period.
#[derive(Clone, Copy, Debug, PartialEq, Eq)]
pub struct Difficulty(pub i32);

impl Default for Difficulty {
    fn default() -> (d: Self)
        ensures
            d.0 == DEFAULT_DIFFICULTY,
    {
        Self(DEFAULT_DIFFICULTY)
    }
}

/// Marker of the start menu.
#[derive(Clone, Copy, Debug, PartialEq, Eq)]
pub struct Menu;

/// Marker of the sign shown over the menu once the game is lost.
#[derive(Clone, Copy, Debug, PartialEq, Eq)]
pub struct GameOverSign;

/// The level being played, counted from one.
#[derive(Clone, Copy, Debug, PartialEq, Eq)]
pub struct Level(pub u32);

} // verus!
