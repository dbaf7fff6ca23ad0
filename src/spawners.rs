use vstd::prelude::*;

use crate::components::{
    CannonBundle, Difficulty, EnemyMovement, GameOverSign, LifesUI, Menu, Player, ScoreUI,
};
use crate::consts::{CANNON_Y, DEFAULT_DIFFICULTY, START_LIVES};
use crate::geometry::{Size, Transform};
use crate::world::{GameState, World};

verus! {

/// What a menu button asks for.
#[derive(Clone, Copy, Debug, PartialEq, Eq, Structural)]
pub enum ButtonAction {
    StartGame,
}

/// Puts a fresh cannon at the centre of its row, replacing any other.
pub fn spawn_cannon(cannon: &mut Option<CannonBundle>)
    ensures
        *final(cannon) == Some(
            CannonBundle {
                marker: crate::components::Cannon,
                transform: Transform { x: 0, y: CANNON_Y },
                size: Size { width: 26, height: 16 },
            },
        ),
{
    *cannon = Some(CannonBundle::new());
}

/// Puts up an empty lives readout, replacing any other.
pub fn spawn_lifes_ui(ui: &mut Option<LifesUI>)
    ensures
        final(ui).is_some(),
        final(ui).unwrap().text@.len() == 0,
{
    *ui = Some(LifesUI { text: String::new() });
}

/// Puts up an empty score readout, replacing any other.
pub fn spawn_score_ui(ui: &mut Option<ScoreUI>)
    ensures
        final(ui).is_some(),
        final(ui).unwrap().text@.len() == 0,
{
    *ui = Some(ScoreUI { text: String::new() });
}

/// Shows the menu with its Start Game button; over a lost game it also
/// shows the game-over sign.
pub fn spawn_menu(menu: &mut Option<Menu>, sign: &mut Option<GameOverSign>, state: GameState)
    ensures
        *final(menu) == Some(Menu),
        final(sign).is_some() == (state == GameState::GameOver),
{
    *menu = Some(Menu);
    if state == GameState::GameOver {
        *sign = Some(GameOverSign);
    } else {
        *sign = None;
    }
}

/// Takes the menu, and the game-over sign with it, off the screen.
pub fn despawn_menu(menu: &mut Option<Menu>, sign: &mut Option<GameOverSign>)
    ensures
        final(menu).is_none(),
        final(sign).is_none(),
{
    *menu = None;
    *sign = None;
}

/// Removes every entity of a game in play: cannon, laser, invaders, bombs,
/// UFO, UFO timer and both readouts.
pub fn despawn_game(world: &mut World)
    ensures
        final(world).cannon.is_none(),
        final(world).lasers@.len() == 0,
        final(world).enemies@.len() == 0,
        final(world).bombs@.len() == 0,
        final(world).ufos@.len() == 0,
        final(world).ufo_timer.is_none(),
        final(world).lifes_ui.is_none(),
        final(world).score_ui.is_none(),
        final(world).state == old(world).state,
        final(world).player == old(world).player,
        final(world).enemy_movement == old(world).enemy_movement,
        final(world).difficulty == old(world).difficulty,
        final(world).level == old(world).level,
        final(world).note == old(world).note,
        final(world).sounds == old(world).sounds,
        final(world).menu == old(world).menu,
        final(world).game_over_sign == old(world).game_over_sign,
{
    world.cannon = None;
    world.lasers.clear();
    world.enemies.clear();
    world.bombs.clear();
    world.ufos.clear();
    world.ufo_timer = None;
    world.lifes_ui = None;
    world.score_ui = None;
}

/// Starts a session: a fresh player, the default difficulty and the
/// starting sweep.
pub fn setup(player: &mut Player, difficulty: &mut Difficulty, movement: &mut EnemyMovement)
    ensures
        final(player).lifes == START_LIVES,
        final(player).score == 0,
        final(difficulty).0 == DEFAULT_DIFFICULTY,
        *final(movement) == (EnemyMovement { direction: 1, speed: 8, advance: false }),
{
    *difficulty = Difficulty::default();
    *movement = EnemyMovement::new();
    *player = Player::new();
}

} // verus!
