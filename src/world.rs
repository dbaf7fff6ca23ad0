use vstd::prelude::*;

use crate::components::{
    BombBundle, CannonBundle, Difficulty, EnemyBundle, EnemyMovement, GameOverSign,
    LaserBeamBundle, Level, LifesUI, Menu, Player, ScoreUI, UfoBundle, UfoSpawnTimer,
};
use crate::consts::{COORD_LIMIT, DEFAULT_DIFFICULTY, MAX_BOUNTY, MIN_DIFFICULTY};
use crate::geometry::Transform;
use crate::sounds::{load_sounds, CurrentNoteIndex, SoundBank};
use crate::systems::cannon_wf;
use crate::text::signed_decimal;

verus! {

/// The phases of a game.
#[derive(Clone, Copy, Debug, PartialEq, Eq, Structural)]
pub enum GameState {
    Menu,
    Playing,
    LevelComplete,
    GameOver,
}

/// A coordinate within the range the world keeps to.
pub open spec fn fits(v: i64) -> bool {
    -COORD_LIMIT <= v <= COORD_LIMIT
}

pub open spec fn placed(t: Transform) -> bool {
    fits(t.x) && fits(t.y)
}

pub open spec fn laser_ok(l: LaserBeamBundle) -> bool {
    placed(l.transform)
}

pub open spec fn enemy_ok(e: EnemyBundle) -> bool {
    placed(e.transform) && 0 <= e.hitpoints.0 <= MAX_BOUNTY
}

pub open spec fn bomb_ok(b: BombBundle) -> bool {
    placed(b.transform)
}

pub open spec fn ufo_ok(u: UfoBundle) -> bool {
    &&& placed(u.transform)
    &&& (u.direction.0 == 1 || u.direction.0 == -1)
    &&& 0 <= u.hitpoints.0 <= MAX_BOUNTY
}

/// No two invaders share a formation cell.
pub open spec fn distinct_cells(s: Seq<EnemyBundle>) -> bool {
    forall|i: int, j: int|
        0 <= i < s.len() && 0 <= j < s.len() && i != j ==> #[trigger] s[i].position
            != #[trigger] s[j].position
}

/// The whole simulated world: the resources, and the entities of each kind
/// in the order they were spawned.
pub struct World {
    pub state: GameState,
    pub player: Player,
    pub enemy_movement: EnemyMovement,
    pub difficulty: Difficulty,
    pub level: Level,
    pub note: CurrentNoteIndex,
    pub sounds: SoundBank,
    pub cannon: Option<CannonBundle>,
    pub lasers: Vec<LaserBeamBundle>,
    pub enemies: Vec<EnemyBundle>,
    pub bombs: Vec<BombBundle>,
    pub ufos: Vec<UfoBundle>,
    pub ufo_timer: Option<UfoSpawnTimer>,
    pub lifes_ui: Option<LifesUI>,
    pub score_ui: Option<ScoreUI>,
    pub menu: Option<Menu>,
    pub game_over_sign: Option<GameOverSign>,
}

impl World {
    /// The invariants of the world: at most one laser and at most one UFO,
    /// the cannon on its row and within its bounds, no two invaders in the
    /// same formation cell, every coordinate within
    /// range, every bounty between zero and the largest, and each resource
    /// within its own bounds.
    pub open spec fn wf(&self) -> bool {
        &&& self.player.wf()
        &&& self.enemy_movement.wf()
        &&& MIN_DIFFICULTY <= self.difficulty.0 <= DEFAULT_DIFFICULTY
        &&& self.level.0 >= 1
        &&& self.note.0 <= 3
        &&& cannon_wf(self.cannon)
        &&& self.lasers@.len() <= 1
        &&& self.ufos@.len() <= 1
        &&& forall|i: int| 0 <= i < self.lasers@.len() ==> laser_ok(#[trigger] self.lasers@[i])
        &&& forall|i: int| 0 <= i < self.enemies@.len() ==> enemy_ok(#[trigger] self.enemies@[i])
        &&& distinct_cells(self.enemies@)
        &&& forall|i: int| 0 <= i < self.bombs@.len() ==> bomb_ok(#[trigger] self.bombs@[i])
        &&& forall|i: int| 0 <= i < self.ufos@.len() ==> ufo_ok(#[trigger] self.ufos@[i])
        &&& self.ufo_timer matches Some(t) ==> t.wf()
    }

    /// A world showing the start menu, with a fresh player and nothing in
    /// play.
    pub fn new() -> (w: Self)
        ensures
            w.wf(),
            w.state == GameState::Menu,
            w.menu == Some(Menu),
            w.game_over_sign.is_none(),
            w.player.lifes == 3 && w.player.score == 0,
            w.level == Level(1),
            w.difficulty.0 == DEFAULT_DIFFICULTY,
            w.cannon.is_none(),
            w.lasers@.len() == 0,
            w.enemies@.len() == 0,
            w.bombs@.len() == 0,
            w.ufos@.len() == 0,
            w.ufo_timer.is_none(),
    {
        let (sounds, note) = load_sounds();
        World {
            state: GameState::Menu,
            player: Player::new(),
            enemy_movement: EnemyMovement::new(),
            difficulty: Difficulty::default(),
            level: Level(1),
            note,
            sounds,
            cannon: None,
            lasers: Vec::new(),
            enemies: Vec::new(),
            bombs: Vec::new(),
            ufos: Vec::new(),
            ufo_timer: None,
            lifes_ui: None,
            score_ui: None,
            menu: Some(Menu),
            game_over_sign: None,
        }
    }
}

/// Two worlds hold the same entities and resources; only the phase and the
/// menu may differ.
pub open spec fn same_play(a: World, b: World) -> bool {
    &&& a.player == b.player
    &&& a.enemy_movement == b.enemy_movement
    &&& a.difficulty == b.difficulty
    &&& a.level == b.level
    &&& a.note == b.note
    &&& a.sounds == b.sounds
    &&& a.cannon == b.cannon
    &&& a.lasers@ == b.lasers@
    &&& a.enemies@ == b.enemies@
    &&& a.bombs@ == b.bombs@
    &&& a.ufos@ == b.ufos@
    &&& a.ufo_timer == b.ufo_timer
    &&& a.lifes_ui == b.lifes_ui
    &&& a.score_ui == b.score_ui
}

/// Each readout present shows the player's current figure.
pub open spec fn readouts_show(w: World) -> bool {
    &&& w.score_ui matches Some(u) ==> u.text@ == signed_decimal(w.player.score as int)
    &&& w.lifes_ui matches Some(u) ==> u.text@ == signed_decimal(w.player.lifes as int)
}

} // verus!
