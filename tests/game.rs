use space_invaders::components::{BombBundle, Enemy, EnemyBundle, EnemyKind, Level, UfoBundle, UfoSpawnTimer};
use space_invaders::consts::{CANNON_Y, LASER_SPEED, LEFT_WALL, RIGHT_WALL, SPRITE_SIZE, UFO_SPEED};
use space_invaders::game::{
    check_game_over, check_level_complete, fixed_tick, fixed_tick_with, frame, handle_menu_buttons,
};
use space_invaders::input::KeyState;
use space_invaders::spawners::{despawn_game, despawn_menu, spawn_menu, ButtonAction};
use space_invaders::systems::move_ufo;
use space_invaders::world::{GameState, World};

fn idle() -> KeyState {
    KeyState { left_held: false, right_held: false, space_just_pressed: false }
}

fn fire() -> KeyState {
    KeyState { left_held: false, right_held: false, space_just_pressed: true }
}

fn started() -> World {
    let mut w = World::new();
    handle_menu_buttons(&mut w, Some(ButtonAction::StartGame));
    w
}

#[test]
fn a_new_world_shows_the_menu() {
    let w = World::new();
    assert_eq!(w.state, GameState::Menu);
    assert!(w.menu.is_some());
    assert!(w.game_over_sign.is_none());
    assert!(w.enemies.is_empty());
    assert_eq!(w.level, Level(1));
}

#[test]
fn start_game_sets_up_a_level() {
    let w = started();
    assert_eq!(w.state, GameState::Playing);
    assert!(w.menu.is_none());
    assert_eq!(w.enemies.len(), 55);
    assert_eq!(w.cannon.unwrap().transform.y, CANNON_Y);
    assert_eq!(w.player.lifes, 3);
    assert!(w.ufo_timer.is_some());
    assert!(w.lifes_ui.is_some() && w.score_ui.is_some());
    assert_eq!(w.difficulty.0, 100);
}

#[test]
fn menu_ignores_frames_and_missing_presses() {
    let mut w = World::new();
    frame(&mut w, &fire());
    assert_eq!(w.state, GameState::Menu);
    handle_menu_buttons(&mut w, None);
    assert_eq!(w.state, GameState::Menu);
    let mut p = started();
    handle_menu_buttons(&mut p, Some(ButtonAction::StartGame));
    assert_eq!(p.state, GameState::Playing);
    assert_eq!(p.enemies.len(), 55);
}

#[test]
fn first_shot_kills_the_nearest_invader_of_its_column() {
    let mut w = started();
    let out = frame(&mut w, &fire());
    assert!(out.shot);
    assert_eq!(w.lasers.len(), 1);
    assert_eq!(w.lasers[0].transform.x, 0);
    let out = frame(&mut w, &fire());
    assert!(!out.shot);
    let mut frames = 1;
    loop {
        let out = frame(&mut w, &idle());
        frames += 1;
        if out.enemy_hit {
            break;
        }
        assert!(frames < 100);
    }
    assert!(w.lasers.is_empty());
    assert_eq!(w.enemies.len(), 54);
    assert_eq!(w.player.score, 10);
    assert_eq!(w.score_ui.as_ref().unwrap().text, "10");
    assert!(w.enemies.iter().all(|e| !(e.position.x == 6 && e.position.y == 4)));
}

#[test]
fn first_shot_kills_a_lone_squid() {
    let mut w = started();
    w.enemies.retain(|e| e.marker.kind == EnemyKind::Squid);
    let squid_y = w.enemies[0].transform.y;
    frame(&mut w, &fire());
    let bound = (squid_y - CANNON_Y - SPRITE_SIZE / 2 + LASER_SPEED - 1) / LASER_SPEED;
    let mut frames = 0;
    let mut hits = 0;
    while frames < bound {
        if frame(&mut w, &idle()).enemy_hit {
            hits += 1;
        }
        frames += 1;
    }
    assert_eq!(hits, 1);
    assert_eq!(w.player.score, 30);
    assert_eq!(w.enemies.len(), 10);
    assert!(w.lasers.is_empty());
}

#[test]
fn bomb_on_the_cannon_costs_a_life() {
    let mut w = started();
    w.bombs.push(BombBundle::new(0, CANNON_Y + 100));
    let mut hits = 0;
    for _ in 0..200 {
        hits += frame(&mut w, &idle()).player_hits;
    }
    assert_eq!(hits, 1);
    assert!(w.bombs.is_empty());
    assert_eq!(w.player.lifes, 2);
    assert_eq!(w.lifes_ui.as_ref().unwrap().text, "2");
    assert_eq!(w.state, GameState::Playing);
}

#[test]
fn last_life_lost_ends_the_game() {
    let mut w = started();
    w.player.lifes = 1;
    w.bombs.push(BombBundle::new(0, CANNON_Y + 10));
    frame(&mut w, &idle());
    assert_eq!(w.player.lifes, 0);
    assert_eq!(w.state, GameState::GameOver);
    assert!(w.menu.is_some());
    assert!(w.game_over_sign.is_some());
    handle_menu_buttons(&mut w, Some(ButtonAction::StartGame));
    assert_eq!(w.state, GameState::Playing);
    assert_eq!(w.player.lifes, 3);
    assert_eq!(w.player.score, 0);
    assert!(w.game_over_sign.is_none());
    assert_eq!(w.enemies.len(), 55);
}

#[test]
fn clearing_the_formation_completes_the_level() {
    let mut w = started();
    w.player.add_to_score(500);
    w.player.kill();
    w.enemies.truncate(1);
    w.enemies[0] = EnemyBundle::new(Enemy::octopus(), 0, CANNON_Y + 40);
    frame(&mut w, &fire());
    for _ in 0..5 {
        if w.state != GameState::Playing {
            break;
        }
        frame(&mut w, &idle());
    }
    assert_eq!(w.state, GameState::LevelComplete);
    assert_eq!(w.level, Level(2));
    assert_eq!(w.difficulty.0, 90);
    assert!(w.enemies.is_empty());
    frame(&mut w, &idle());
    assert_eq!(w.state, GameState::Playing);
    assert_eq!(w.enemies.len(), 55);
    assert_eq!(w.player.score, 510);
    assert_eq!(w.player.lifes, 2);
    assert_eq!(w.level, Level(2));
}

#[test]
fn state_checks_only_fire_in_play() {
    let mut w = World::new();
    check_game_over(&mut w);
    check_level_complete(&mut w);
    assert_eq!(w.state, GameState::Menu);
    let mut p = started();
    check_game_over(&mut p);
    check_level_complete(&mut p);
    assert_eq!(p.state, GameState::Playing);
}

#[test]
fn fixed_tick_sweeps_and_cycles_the_cue() {
    let mut w = started();
    let xs: Vec<i64> = w.enemies.iter().map(|e| e.transform.x).collect();
    let rolls = vec![99u32; 55];
    let out = fixed_tick_with(&mut w, &rolls, 0);
    assert!(!out.advancement);
    assert_eq!(out.note_asset.as_deref(), Some("sounds/fastinvader0.ogg"));
    assert!(!out.ufo_spawned);
    for (e, x) in w.enemies.iter().zip(xs.iter()) {
        assert_eq!(e.transform.x, x + 8);
    }
    assert!(w.bombs.is_empty());
    let out = fixed_tick(&mut w);
    assert_eq!(out.note_asset.as_deref(), Some("sounds/fastinvader1.ogg"));
    assert!(w.lasers.len() <= 1 && w.ufos.len() <= 1);
}

#[test]
fn fixed_tick_does_nothing_outside_play() {
    let mut w = World::new();
    let out = fixed_tick(&mut w);
    assert_eq!(out.note_asset, None);
    assert!(!out.advancement);
}

#[test]
fn ufo_spawns_after_ten_seconds_of_fixed_ticks() {
    let mut w = started();
    let rolls = vec![99u32; 55];
    let mut spawned_at = None;
    for tick in 0..10 {
        let out = fixed_tick_with(&mut w, &rolls, 4);
        if out.ufo_spawned {
            spawned_at = Some(tick);
            break;
        }
    }
    assert_eq!(spawned_at, Some(9));
    assert_eq!(w.ufos.len(), 1);
    assert_eq!(w.ufos[0].hitpoints.0, 300);
    // The formation met the right wall on the seventh tick and now sweeps
    // left, so the UFO enters on the right, flying left.
    assert_eq!(w.enemy_movement.direction, -1);
    assert_eq!(w.ufos[0].transform.x, RIGHT_WALL - SPRITE_SIZE / 2);
    assert_eq!(w.ufos[0].direction.0, -1);
}

#[test]
fn ufo_crosses_the_field_and_leaves() {
    let mut ufos = vec![UfoBundle::with_bounty(LEFT_WALL + SPRITE_SIZE / 2, 190, 1, 0)];
    let limit = (2 * RIGHT_WALL + 2 * SPRITE_SIZE) / UFO_SPEED;
    let mut frames = 0;
    while !ufos.is_empty() {
        move_ufo(&mut ufos);
        frames += 1;
    }
    assert!(frames <= limit);
    assert_eq!(frames, RIGHT_WALL + SPRITE_SIZE + 1 - (LEFT_WALL + SPRITE_SIZE / 2));
}

#[test]
fn menu_spawns_with_the_sign_only_after_a_loss() {
    let mut menu = None;
    let mut sign = None;
    spawn_menu(&mut menu, &mut sign, GameState::Menu);
    assert!(menu.is_some() && sign.is_none());
    spawn_menu(&mut menu, &mut sign, GameState::GameOver);
    assert!(menu.is_some() && sign.is_some());
    despawn_menu(&mut menu, &mut sign);
    assert!(menu.is_none() && sign.is_none());
}

#[test]
fn despawn_game_clears_every_entity() {
    let mut w = started();
    w.ufo_timer = Some(UfoSpawnTimer::new(5));
    despawn_game(&mut w);
    assert!(w.cannon.is_none() && w.enemies.is_empty() && w.ufo_timer.is_none());
    assert!(w.lifes_ui.is_none() && w.score_ui.is_none());
    assert_eq!(w.state, GameState::Playing);
}
