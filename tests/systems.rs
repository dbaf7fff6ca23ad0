use space_invaders::components::{
    BombBundle, CannonBundle, Enemy, EnemyBundle, HitEvent, LaserBeamBundle, LifesUI, Player,
    ScoreUI, UfoBundle, UfoSpawnTimer,
};
use space_invaders::consts::{BOTTOM_WALL, CANNON_MAX_X, CANNON_MIN_X, CANNON_Y, TOP_WALL};
use space_invaders::geometry::{intersects, Size, Transform};
use space_invaders::input::{player_input, ControllerDirection, ControllerEvent, Fired, KeyState};
use space_invaders::systems::{
    detect_bomb_hit, detect_laser_hit, fire_laser, move_bomb, move_cannon, move_laser_beam,
    move_ufo, play_enemy_hit_sound, setup_ufo_timer, update_lifes_ui, update_score_ui,
};

fn right() -> ControllerEvent {
    ControllerEvent { direction: ControllerDirection::Right }
}

fn left() -> ControllerEvent {
    ControllerEvent { direction: ControllerDirection::Left }
}

#[test]
fn boxes_touching_at_their_edges_intersect() {
    let a = Transform { x: 0, y: 0 };
    let sa = Size { width: 10, height: 10 };
    assert!(intersects(&a, &sa, &Transform { x: 10, y: 0 }, &sa));
    assert!(!intersects(&a, &sa, &Transform { x: 11, y: 0 }, &sa));
    assert!(intersects(&a, &sa, &Transform { x: -10, y: 10 }, &sa));
    assert!(!intersects(&a, &sa, &Transform { x: 0, y: -11 }, &sa));
}

#[test]
fn player_input_emits_held_directions_and_one_fire() {
    let e = player_input(&KeyState { left_held: true, right_held: true, space_just_pressed: true });
    assert_eq!(e.controller, vec![left(), right()]);
    assert_eq!(e.fired.len(), 1);
    let e = player_input(&KeyState { left_held: false, right_held: false, space_just_pressed: false });
    assert!(e.controller.is_empty());
    assert!(e.fired.is_empty());
}

#[test]
fn cannon_moves_three_units_per_net_request() {
    let mut cannon = Some(CannonBundle::new());
    move_cannon(&mut cannon, &vec![right(), right(), left()]);
    assert_eq!(cannon.unwrap().transform, Transform { x: 3, y: CANNON_Y });
    move_cannon(&mut cannon, &vec![left(), left()]);
    assert_eq!(cannon.unwrap().transform.x, -3);
}

#[test]
fn cannon_is_clamped_inside_the_walls() {
    let mut cannon = Some(CannonBundle::new());
    for _ in 0..200 {
        move_cannon(&mut cannon, &vec![right()]);
        let x = cannon.unwrap().transform.x;
        assert!(CANNON_MIN_X <= x && x <= CANNON_MAX_X);
    }
    assert_eq!(cannon.unwrap().transform.x, CANNON_MAX_X);
    for _ in 0..200 {
        move_cannon(&mut cannon, &vec![left(), left()]);
    }
    assert_eq!(cannon.unwrap().transform.x, CANNON_MIN_X);
    assert_eq!(CANNON_MIN_X, -208);
    assert_eq!(CANNON_MAX_X, 208);
}

#[test]
fn move_cannon_without_a_cannon_does_nothing() {
    let mut cannon: Option<CannonBundle> = None;
    move_cannon(&mut cannon, &vec![right()]);
    assert!(cannon.is_none());
}

#[test]
fn fire_spawns_one_laser_above_the_cannon() {
    let mut lasers = Vec::new();
    let cannon = Some(CannonBundle::new());
    let mut fired = vec![Fired, Fired];
    assert!(fire_laser(&mut lasers, &cannon, &mut fired));
    assert!(fired.is_empty());
    assert_eq!(lasers.len(), 1);
    assert_eq!(lasers[0].transform, Transform { x: 0, y: CANNON_Y + 16 });
    assert_eq!(lasers[0].size, Size { width: 1, height: 10 });
    let mut fired = vec![Fired];
    assert!(!fire_laser(&mut lasers, &cannon, &mut fired));
    assert_eq!(lasers.len(), 1);
    assert!(fired.is_empty());
}

#[test]
fn fire_without_request_or_cannon_spawns_nothing() {
    let mut lasers = Vec::new();
    let mut fired = Vec::new();
    assert!(!fire_laser(&mut lasers, &Some(CannonBundle::new()), &mut fired));
    let mut fired = vec![Fired];
    assert!(!fire_laser(&mut lasers, &None, &mut fired));
    assert!(lasers.is_empty());
}

#[test]
fn laser_rises_eight_units_and_leaves_at_the_top() {
    let mut lasers = vec![LaserBeamBundle::new(5, 100)];
    move_laser_beam(&mut lasers);
    assert_eq!(lasers[0].transform, Transform { x: 5, y: 124 });
    let mut lasers = vec![LaserBeamBundle::new(5, TOP_WALL - 16 - 8)];
    move_laser_beam(&mut lasers);
    assert!(lasers.is_empty());
    let mut lasers = vec![LaserBeamBundle::new(5, TOP_WALL - 16 - 9)];
    move_laser_beam(&mut lasers);
    assert_eq!(lasers[0].transform.y, TOP_WALL - 1);
}

#[test]
fn bomb_falls_one_unit_and_leaves_at_the_bottom() {
    let mut bombs = vec![BombBundle::new(0, 0), BombBundle::new(1, BOTTOM_WALL + 1), BombBundle::new(2, BOTTOM_WALL + 2)];
    move_bomb(&mut bombs);
    assert_eq!(bombs.len(), 2);
    assert_eq!(bombs[0].transform, Transform { x: 0, y: -1 });
    assert_eq!(bombs[1].transform, Transform { x: 2, y: BOTTOM_WALL + 1 });
}

#[test]
fn ufo_flies_one_unit_and_leaves_a_sprite_past_the_wall() {
    let mut ufos = vec![UfoBundle::with_bounty(256, 190, 1, 0), UfoBundle::with_bounty(0, 190, -1, 1)];
    move_ufo(&mut ufos);
    assert_eq!(ufos.len(), 1);
    assert_eq!(ufos[0].transform, Transform { x: -1, y: 190 });
    assert_eq!(ufos[0].hitpoints.0, 100);
}

#[test]
fn laser_hit_takes_the_first_target_and_credits_it() {
    let mut player = Player::new();
    let mut lasers = vec![LaserBeamBundle::new(0, 0)];
    let mut enemies = vec![
        EnemyBundle::new(Enemy::squid(), 100, 16),
        EnemyBundle::new(Enemy::crab(), 0, 20),
        EnemyBundle::new(Enemy::octopus(), 2, 16),
    ];
    let mut ufos = vec![UfoBundle::with_bounty(0, 16, 1, 4)];
    let hit = detect_laser_hit(&mut player, &mut lasers, &mut enemies, &mut ufos);
    assert_eq!(hit, Some(HitEvent));
    assert_eq!(player.score, 20);
    assert!(lasers.is_empty());
    assert_eq!(enemies.len(), 2);
    assert_eq!(enemies[0].transform.x, 100);
    assert_eq!(enemies[1].transform.x, 2);
    assert_eq!(ufos.len(), 1);
}

#[test]
fn laser_hit_reaches_the_ufo_when_no_invader_is_met() {
    let mut player = Player::new();
    let mut lasers = vec![LaserBeamBundle::new(0, 174)];
    let mut enemies = vec![EnemyBundle::new(Enemy::squid(), 100, 16)];
    let mut ufos = vec![UfoBundle::with_bounty(10, 190, 1, 2)];
    let hit = detect_laser_hit(&mut player, &mut lasers, &mut enemies, &mut ufos);
    assert_eq!(hit, Some(HitEvent));
    assert_eq!(player.score, 150);
    assert!(ufos.is_empty());
    assert_eq!(enemies.len(), 1);
}

#[test]
fn laser_that_meets_nothing_changes_nothing() {
    let mut player = Player::new();
    let mut lasers = vec![LaserBeamBundle::new(0, 0)];
    let mut enemies = vec![EnemyBundle::new(Enemy::squid(), 100, 16)];
    let mut ufos = Vec::new();
    assert_eq!(detect_laser_hit(&mut player, &mut lasers, &mut enemies, &mut ufos), None);
    assert_eq!(lasers.len(), 1);
    assert_eq!(enemies.len(), 1);
    assert_eq!(player.score, 0);
}

#[test]
fn bombs_on_the_cannon_cost_a_life_each() {
    let mut player = Player::new();
    let cannon = Some(CannonBundle::new());
    let mut bombs = vec![
        BombBundle::new(0, CANNON_Y + 23),
        BombBundle::new(0, CANNON_Y + 24),
        BombBundle::new(18, CANNON_Y),
        BombBundle::new(19, CANNON_Y),
    ];
    let events = detect_bomb_hit(&mut player, &mut bombs, &cannon);
    assert_eq!(events.len(), 2);
    assert_eq!(player.lifes, 1);
    assert_eq!(bombs.len(), 2);
    assert_eq!(bombs[0].transform.y, CANNON_Y + 24);
    assert_eq!(bombs[1].transform.x, 19);
}

#[test]
fn bomb_hits_never_take_lives_below_zero() {
    let mut player = Player::new();
    let cannon = Some(CannonBundle::new());
    let mut bombs = vec![BombBundle::new(0, CANNON_Y); 5];
    let events = detect_bomb_hit(&mut player, &mut bombs, &cannon);
    assert_eq!(events.len(), 5);
    assert_eq!(player.lifes, 0);
    assert!(bombs.is_empty());
}

#[test]
fn hit_sound_plays_once_for_any_hits() {
    let mut hits = vec![HitEvent, HitEvent];
    assert!(play_enemy_hit_sound(&mut hits));
    assert!(hits.is_empty());
    assert!(!play_enemy_hit_sound(&mut hits));
}

#[test]
fn readouts_show_lives_and_score() {
    let mut player = Player::new();
    player.add_to_score(1230);
    player.kill();
    let mut lifes = Some(LifesUI { text: String::new() });
    let mut score = Some(ScoreUI { text: String::new() });
    update_lifes_ui(&player, &mut lifes);
    update_score_ui(&player, &mut score);
    assert_eq!(lifes.unwrap().text, "2");
    assert_eq!(score.unwrap().text, "1230");
    let mut none: Option<ScoreUI> = None;
    update_score_ui(&player, &mut none);
    assert!(none.is_none());
}

#[test]
fn ufo_timer_is_ten_seconds() {
    let mut timer = None;
    setup_ufo_timer(&mut timer);
    assert_eq!(timer, Some(UfoSpawnTimer { duration_ms: 10_000, elapsed_ms: 0 }));
}
