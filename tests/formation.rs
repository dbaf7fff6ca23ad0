use space_invaders::components::{
    Difficulty, Enemy, EnemyAdvancement, EnemyBundle, EnemyKind, EnemyMovement, EnemyPosition,
    Level, UfoBundle, UfoSpawnTimer,
};
use space_invaders::consts::{LEFT_WALL, RIGHT_WALL, SPRITE_SIZE, TOP_WALL, UFO_Y};
use space_invaders::formation::{
    drop_bomb, drop_bomb_with_rolls, fixed_period_ms, increase_difficulty, move_enemies,
    spawn_enemies, spawn_ufo, spawn_ufo_with_bounty, start_difficulty,
};
use space_invaders::sounds::{load_sounds, play_invader_sound, CurrentNoteIndex};

fn invader_at(x: i64, y: i64, col: u8, row: u8) -> EnemyBundle {
    let mut e = EnemyBundle::new(Enemy::crab(), x, y);
    e.position = EnemyPosition { x: col, y: row };
    e
}

#[test]
fn formation_is_five_rows_of_eleven() {
    let mut enemies = Vec::new();
    spawn_enemies(&mut enemies);
    assert_eq!(enemies.len(), 55);
    for (i, e) in enemies.iter().enumerate() {
        let row = (i / 11) as i64;
        let col = (i % 11) as i64;
        assert_eq!(e.position, EnemyPosition { x: col as u8, y: row as u8 });
        assert_eq!(e.transform.x, (SPRITE_SIZE + 1) * col + LEFT_WALL + SPRITE_SIZE);
        assert_eq!(e.transform.y, TOP_WALL - SPRITE_SIZE - (SPRITE_SIZE + 1) * row);
        let kind = match row {
            0 => EnemyKind::Squid,
            1 | 2 => EnemyKind::Crab,
            _ => EnemyKind::Octopus,
        };
        assert_eq!(e.marker.kind, kind);
        assert_eq!(e.hitpoints.0, e.marker.points);
    }
    assert_eq!(enemies[0].hitpoints.0, 30);
    assert_eq!(enemies[11].hitpoints.0, 20);
    assert_eq!(enemies[54].hitpoints.0, 10);
}

#[test]
fn pure_sweep_translates_every_invader() {
    let mut m = EnemyMovement::new();
    let mut enemies = vec![invader_at(0, 50, 0, 0), invader_at(33, 50, 1, 0), invader_at(-40, 17, 0, 1)];
    let adv = move_enemies(&mut m, &mut enemies);
    assert_eq!(adv, None);
    assert_eq!(m, EnemyMovement::new());
    let xs: Vec<i64> = enemies.iter().map(|e| e.transform.x).collect();
    let ys: Vec<i64> = enemies.iter().map(|e| e.transform.y).collect();
    assert_eq!(xs, vec![8, 41, -32]);
    assert_eq!(ys, vec![50, 50, 17]);
}

#[test]
fn wall_contact_reverses_then_descends() {
    let mut m = EnemyMovement::new();
    let rightmost = RIGHT_WALL - SPRITE_SIZE - 2;
    let mut enemies = vec![invader_at(0, 100, 0, 0), invader_at(rightmost, 100, 1, 0)];
    let adv = move_enemies(&mut m, &mut enemies);
    assert_eq!(adv, Some(EnemyAdvancement));
    assert_eq!(m.direction, -1);
    assert!(m.advance);
    assert_eq!(enemies[1].transform.x, rightmost + 8);
    let adv = move_enemies(&mut m, &mut enemies);
    assert_eq!(adv, None);
    assert!(!m.advance);
    assert_eq!(m.direction, -1);
    assert_eq!(enemies[0].transform, space_invaders::geometry::Transform { x: 8, y: 100 - SPRITE_SIZE });
    assert_eq!(enemies[1].transform.y, 100 - SPRITE_SIZE);
    let adv = move_enemies(&mut m, &mut enemies);
    assert_eq!(adv, None);
    assert_eq!(enemies[0].transform.x, 0);
}

#[test]
fn left_wall_contact_turns_the_sweep_right() {
    let mut m = EnemyMovement::new();
    m.reverse_direction();
    let mut enemies = vec![invader_at(LEFT_WALL + SPRITE_SIZE + 8, 0, 0, 0)];
    assert_eq!(move_enemies(&mut m, &mut enemies), None);
    assert_eq!(move_enemies(&mut m, &mut enemies), Some(EnemyAdvancement));
    assert_eq!(m.direction, 1);
}

#[test]
fn sweep_forth_and_back_offsets_by_the_difference() {
    let mut m = EnemyMovement::new();
    let mut enemies = vec![invader_at(-50, 0, 0, 0), invader_at(-17, 0, 1, 0)];
    for _ in 0..3 {
        assert_eq!(move_enemies(&mut m, &mut enemies), None);
    }
    m.reverse_direction();
    assert_eq!(move_enemies(&mut m, &mut enemies), None);
    assert_eq!(enemies[0].transform.x, -50 + 8 * (3 - 1));
    assert_eq!(enemies[1].transform.x, -17 + 8 * (3 - 1));
    assert_eq!(enemies[1].transform.x - enemies[0].transform.x, 33);
}

#[test]
fn only_the_front_rank_drops_bombs() {
    let enemies = vec![
        invader_at(0, 100, 0, 0),
        invader_at(0, 67, 0, 1),
        invader_at(33, 100, 1, 0),
        invader_at(66, 34, 2, 2),
    ];
    let mut bombs = Vec::new();
    drop_bomb_with_rolls(&enemies, &mut bombs, &vec![0, 0, 0, 50]);
    assert_eq!(bombs.len(), 2);
    assert_eq!((bombs[0].transform.x, bombs[0].transform.y), (0, 67));
    assert_eq!((bombs[1].transform.x, bombs[1].transform.y), (33, 100));
    assert_eq!((bombs[0].size.width, bombs[0].size.height), (10, 30));
    drop_bomb_with_rolls(&enemies, &mut bombs, &vec![99, 9, 10, 9]);
    assert_eq!(bombs.len(), 4);
    assert_eq!(bombs[2].transform.x, 0);
    assert_eq!(bombs[3].transform.x, 66);
}

#[test]
fn random_drops_eventually_fall_from_the_front_rank() {
    let mut enemies = Vec::new();
    spawn_enemies(&mut enemies);
    let mut bombs = Vec::new();
    for _ in 0..200 {
        drop_bomb(&enemies, &mut bombs);
    }
    assert!(!bombs.is_empty());
    assert!(bombs.len() < 200 * 11);
    for b in &bombs {
        assert_eq!(b.transform.y, enemies[44].transform.y);
    }
}

#[test]
fn ufo_spawns_opposite_the_sweep_when_the_timer_expires() {
    let mut timer = Some(UfoSpawnTimer { duration_ms: 10_000, elapsed_ms: 9_500 });
    let mut ufos = Vec::new();
    let m = EnemyMovement::new();
    assert!(!spawn_ufo_with_bounty(&mut timer, &mut ufos, &m, 400, 3));
    assert!(ufos.is_empty());
    assert!(spawn_ufo_with_bounty(&mut timer, &mut ufos, &m, 400, 3));
    assert_eq!(ufos.len(), 1);
    assert_eq!(ufos[0].transform.x, LEFT_WALL + SPRITE_SIZE / 2);
    assert_eq!(ufos[0].transform.y, UFO_Y);
    assert_eq!(ufos[0].direction.0, 1);
    assert_eq!(ufos[0].hitpoints.0, 200);
    assert_eq!(timer.unwrap().elapsed_ms, 300);
    let mut timer = Some(UfoSpawnTimer { duration_ms: 10_000, elapsed_ms: 9_999 });
    assert!(!spawn_ufo_with_bounty(&mut timer, &mut ufos, &m, 1, 0));
    assert_eq!(ufos.len(), 1);
}

#[test]
fn ufo_from_a_leftward_sweep_enters_on_the_right() {
    let mut timer = Some(UfoSpawnTimer { duration_ms: 10_000, elapsed_ms: 0 });
    let mut ufos = Vec::new();
    let mut m = EnemyMovement::new();
    m.reverse_direction();
    assert!(spawn_ufo(&mut timer, &mut ufos, &m, 10_000));
    assert_eq!(ufos[0].transform.x, RIGHT_WALL - SPRITE_SIZE / 2);
    assert_eq!(ufos[0].direction.0, -1);
    assert!([50, 100, 150, 200, 300].contains(&ufos[0].hitpoints.0));
    let mut none = None;
    let mut ufos = Vec::new();
    assert!(!spawn_ufo(&mut none, &mut ufos, &m, 100_000));
}

#[test]
fn random_ufo_bounties_vary_within_the_table() {
    let mut seen = Vec::new();
    for _ in 0..200 {
        let u = UfoBundle::new(0, 0, 1);
        assert!([50, 100, 150, 200, 300].contains(&u.hitpoints.0));
        if !seen.contains(&u.hitpoints.0) {
            seen.push(u.hitpoints.0);
        }
    }
    assert!(seen.len() >= 2);
}

#[test]
fn difficulty_drops_one_per_kill_and_never_rises() {
    let level = Level(1);
    let mut d = start_difficulty(&level);
    assert_eq!(d.0, 100);
    increase_difficulty(&mut d, &level, 55);
    assert_eq!(d.0, 100);
    increase_difficulty(&mut d, &level, 50);
    assert_eq!(d.0, 95);
    increase_difficulty(&mut d, &level, 52);
    assert_eq!(d.0, 95);
    increase_difficulty(&mut d, &level, 0);
    assert_eq!(d.0, 45);
    assert_eq!(fixed_period_ms(&d), 450);
}

#[test]
fn difficulty_hardens_per_level_down_to_the_floor() {
    assert_eq!(start_difficulty(&Level(2)).0, 90);
    assert_eq!(start_difficulty(&Level(10)).0, 10);
    assert_eq!(start_difficulty(&Level(u32::MAX)).0, 10);
    let mut d = Difficulty(12);
    increase_difficulty(&mut d, &Level(9), 0);
    assert_eq!(d.0, 10);
    assert_eq!(fixed_period_ms(&Difficulty::default()), 1000);
}

#[test]
fn marching_cue_cycles_through_four_notes() {
    let (bank, mut index) = load_sounds();
    assert_eq!(index, CurrentNoteIndex(0));
    assert_eq!(bank.fire_laser.0, "sounds/shoot.ogg");
    assert_eq!(bank.invader_killed.0, "sounds/invaderkilled.ogg");
    let played: Vec<String> = (0..5).map(|_| play_invader_sound(&bank, &mut index)).collect();
    assert_eq!(
        played,
        vec![
            "sounds/fastinvader0.ogg",
            "sounds/fastinvader1.ogg",
            "sounds/fastinvader2.ogg",
            "sounds/fastinvader3.ogg",
            "sounds/fastinvader0.ogg",
        ]
    );
    assert_eq!(index, CurrentNoteIndex(1));
}
