use space_invaders::components::{Difficulty, Enemy, EnemyKind, EnemyMovement, Player, UfoSpawnTimer};
use space_invaders::text::decimal_text;

#[test]
fn new_player_has_three_lives_and_no_score() {
    let p = Player::new();
    assert_eq!(p.lifes, 3);
    assert_eq!(p.score, 0);
    assert_eq!(p.lifes_left(), "3");
    assert_eq!(p.score(), "0");
}

#[test]
fn kill_takes_one_life_and_stops_at_zero() {
    let mut p = Player::new();
    p.kill();
    assert_eq!(p.lifes, 2);
    p.kill();
    p.kill();
    assert_eq!(p.lifes, 0);
    p.kill();
    assert_eq!(p.lifes, 0);
    assert_eq!(p.lifes_left(), "0");
}

#[test]
fn add_to_score_accumulates() {
    let mut p = Player::new();
    p.add_to_score(30);
    p.add_to_score(20);
    p.add_to_score(300);
    assert_eq!(p.score, 350);
    assert_eq!(p.score(), "350");
}

#[test]
fn decimal_text_renders_signs_and_extremes() {
    assert_eq!(decimal_text(0), "0");
    assert_eq!(decimal_text(7), "7");
    assert_eq!(decimal_text(10), "10");
    assert_eq!(decimal_text(-42), "-42");
    assert_eq!(decimal_text(i64::MAX), i64::MAX.to_string());
    assert_eq!(decimal_text(i64::MIN), i64::MIN.to_string());
}

#[test]
fn enemy_kinds_carry_their_points_and_boxes() {
    let s = Enemy::squid();
    assert_eq!((s.kind, s.points, s.width, s.height), (EnemyKind::Squid, 30, 16, 16));
    let c = Enemy::crab();
    assert_eq!((c.kind, c.points, c.width, c.height), (EnemyKind::Crab, 20, 11, 16));
    let o = Enemy::octopus();
    assert_eq!((o.kind, o.points, o.width, o.height), (EnemyKind::Octopus, 10, 24, 16));
    assert_eq!(s.sprite_file_name(), "squid.png");
    assert_eq!(c.sprite_file_name(), "crab.png");
    assert_eq!(o.sprite_file_name(), "octopus.png");
}

#[test]
fn enemy_movement_starts_rightwards_and_reverses() {
    let mut m = EnemyMovement::new();
    assert_eq!((m.direction, m.speed, m.advance), (1, 8, false));
    m.reverse_direction();
    assert_eq!(m.direction, -1);
    m.reverse_direction();
    assert_eq!(m.direction, 1);
}

#[test]
fn difficulty_defaults_to_one_hundred() {
    assert_eq!(Difficulty::default().0, 100);
}

#[test]
fn timer_expires_once_per_period_and_keeps_the_rest() {
    let mut t = UfoSpawnTimer::new(10_000);
    assert!(!t.tick(9_000));
    assert_eq!(t.elapsed_ms, 9_000);
    assert!(t.tick(1_500));
    assert_eq!(t.elapsed_ms, 500);
    assert!(t.tick(25_000));
    assert_eq!(t.elapsed_ms, 5_500);
}
