use vstd::prelude::*;

use crate::components::{
    BombBundle, Cannon, CannonBundle, Difficulty, EnemyBundle, EnemyMovement, HitEvent,
    LaserBeamBundle, Level, UfoBundle, UfoSpawnTimer, UFO_BOUNTY_COUNT,
};
use crate::consts::{
    CANNON_Y, COORD_LIMIT, MAX_BOUNTY, MS_PER_DIFFICULTY, SPRITE_SIZE, UFO_SPAWN_PERIOD_MS, UFO_Y,
};
use crate::geometry::{Size, Transform};
use crate::formation::{
    drop_bomb_with_rolls, drops, fixed_period_ms, formation, formation_cell,
    increase_difficulty, level_difficulty, move_enemies, spawn_enemies,
    spawn_ufo_with_bounty, start_difficulty, sweep_step, swept, target_difficulty, ufo_due,
    wall_contact, descended, timer_ticked, ufo_start_x,
};
use crate::input::{controller_events_of, player_input, InputEvents, KeyState};
use crate::random::random_below;
use crate::seq_facts::{lemma_filter_all, lemma_remove_all, lemma_remove_index};
use crate::sounds::{next_note, play_invader_sound};
use crate::spawners::{
    despawn_game, despawn_menu, setup, spawn_cannon, spawn_lifes_ui, spawn_menu, spawn_score_ui,
    ButtonAction,
};
use crate::systems::{
    detect_bomb_hit, detect_laser_hit, fire_laser, laser_in_field, laser_risen, move_bomb,
    move_cannon, move_laser_beam, move_ufo, bomb_fallen, bomb_in_field, play_enemy_hit_sound,
    setup_ufo_timer, ufo_in_flight, ufo_moved, update_lifes_ui, update_score_ui, cannon_after,
    laser_hit_outcome, bomb_misses_cannon, lives_after_hits,
};
use crate::world::{
    bomb_ok, distinct_cells, enemy_ok, fits, laser_ok, readouts_show, same_play, ufo_ok, GameState,
    World,
};

verus! {

broadcast use vstd::seq_lib::group_filter_ensures;

/// Every cell of the formation lies well inside the world's range and
/// carries its kind's bounty.
proof fn lemma_formation_ok()
    ensures
        formation().len() == 55,
        forall|k: int| 0 <= k < formation().len() ==> enemy_ok(#[trigger] formation()[k]),
{
    assert forall|k: int| 0 <= k < formation().len() implies enemy_ok(#[trigger] formation()[k]) by {
        let row = k / 11;
        let col = k % 11;
        assert(0 <= row < 5 && 0 <= col < 11) by (nonlinear_arith)
            requires
                0 <= k < 55,
                row == k / 11,
                col == k % 11,
        ;
        assert(formation()[k] == formation_cell(row, col));
    }
}

/// The cells of the formation are all different.
proof fn lemma_formation_distinct()
    ensures
        distinct_cells(formation()),
{
    assert forall|i: int, j: int|
        0 <= i < formation().len() && 0 <= j < formation().len() && i != j implies #[trigger] formation()[i].position
        != #[trigger] formation()[j].position by {
        assert(0 <= i / 11 < 5 && 0 <= i % 11 < 11 && i == 11 * (i / 11) + i % 11) by (nonlinear_arith)
            requires
                0 <= i < 55,
        ;
        assert(0 <= j / 11 < 5 && 0 <= j % 11 < 11 && j == 11 * (j / 11) + j % 11) by (nonlinear_arith)
            requires
                0 <= j < 55,
        ;
        assert(formation()[i] == formation_cell(i / 11, i % 11));
        assert(formation()[j] == formation_cell(j / 11, j % 11));
    }
}

/// Moving every invader by a map that keeps cells keeps them distinct.
proof fn lemma_map_keeps_cells(s: Seq<EnemyBundle>, f: spec_fn(EnemyBundle) -> EnemyBundle)
    requires
        distinct_cells(s),
        forall|e: EnemyBundle| #[trigger] f(e).position == e.position,
    ensures
        distinct_cells(s.map_values(f)),
{
    assert forall|i: int, j: int|
        0 <= i < s.len() && 0 <= j < s.len() && i != j implies #[trigger] s.map_values(f)[i].position
        != #[trigger] s.map_values(f)[j].position by {
        assert(s.map_values(f)[i] == f(s[i]));
        assert(s.map_values(f)[j] == f(s[j]));
    }
}

/// Removing an invader keeps the others' cells distinct.
proof fn lemma_remove_keeps_cells(s: Seq<EnemyBundle>, k: int)
    requires
        0 <= k < s.len(),
        distinct_cells(s),
    ensures
        distinct_cells(s.remove(k)),
{
    let r = s.remove(k);
    assert forall|i: int, j: int|
        0 <= i < r.len() && 0 <= j < r.len() && i != j implies #[trigger] r[i].position
        != #[trigger] r[j].position by {
        lemma_remove_index(s, k, i);
        lemma_remove_index(s, k, j);
        let si = if i < k { i } else { i + 1 };
        let sj = if j < k { j } else { j + 1 };
        assert(s[si].position != s[sj].position);
    }
}

/// The bombs dropped from invaders that lie within range lie within range.
proof fn lemma_drops_ok(s: Seq<EnemyBundle>, rolls: Seq<u32>, k: int)
    requires
        0 <= k <= s.len(),
        forall|i: int| 0 <= i < s.len() ==> enemy_ok(#[trigger] s[i]),
    ensures
        forall|i: int| 0 <= i < drops(s, rolls, k).len() ==> bomb_ok(#[trigger] drops(s, rolls, k)[i]),
    decreases k,
{
    if k > 0 {
        lemma_drops_ok(s, rolls, k - 1);
        let prev = drops(s, rolls, k - 1);
        assert(enemy_ok(s[k - 1]));
        assert forall|i: int| 0 <= i < drops(s, rolls, k).len() implies bomb_ok(
            #[trigger] drops(s, rolls, k)[i],
        ) by {
            if i < prev.len() {
                assert(drops(s, rolls, k)[i] == prev[i]);
            }
        }
    }
}

/// On entering play: the sweep restarts and the difficulty is the one the
/// level starts with.
pub fn reset(movement: &mut EnemyMovement, difficulty: &mut Difficulty, level: &Level)
    requires
        level.0 >= 1,
    ensures
        *final(movement) == (EnemyMovement { direction: 1, speed: 8, advance: false }),
        final(difficulty).0 == level_difficulty(level.0 as int),
{
    *movement = EnemyMovement::new();
    *difficulty = start_difficulty(level);
}

/// Puts a level into play: sweep and difficulty reset, then a cannon, a
/// full formation, both readouts and a fresh UFO timer.
pub fn enter_playing(world: &mut World)
    requires
        old(world).wf(),
        old(world).enemies@.len() == 0,
    ensures
        final(world).wf(),
        final(world).state == GameState::Playing,
        final(world).player == old(world).player,
        final(world).level == old(world).level,
        final(world).difficulty.0 == level_difficulty(old(world).level.0 as int),
        final(world).enemies@ == formation(),
        final(world).cannon == Some(
            CannonBundle {
                marker: Cannon,
                transform: Transform { x: 0, y: CANNON_Y },
                size: Size { width: 26, height: 16 },
            },
        ),
        final(world).lifes_ui.is_some(),
        final(world).score_ui.is_some(),
        final(world).ufo_timer == Some(
            UfoSpawnTimer { duration_ms: UFO_SPAWN_PERIOD_MS, elapsed_ms: 0 },
        ),
        final(world).lasers@ == old(world).lasers@,
        final(world).bombs@ == old(world).bombs@,
        final(world).ufos@ == old(world).ufos@,
        final(world).note == old(world).note,
        final(world).sounds == old(world).sounds,
        final(world).menu == old(world).menu,
        final(world).game_over_sign == old(world).game_over_sign,
{
    reset(&mut world.enemy_movement, &mut world.difficulty, &world.level);
    spawn_cannon(&mut world.cannon);
    spawn_enemies(&mut world.enemies);
    proof {
        lemma_formation_ok();
        lemma_formation_distinct();
        assert(world.enemies@ =~= formation());
    }
    spawn_lifes_ui(&mut world.lifes_ui);
    spawn_score_ui(&mut world.score_ui);
    setup_ufo_timer(&mut world.ufo_timer);
    world.state = GameState::Playing;
}

/// Moves on to the next level: the level count goes up (it stops at the
/// largest `u32`) and the difficulty hardens to that level's start.
pub fn start_next_level(world: &mut World)
    requires
        old(world).wf(),
    ensures
        final(world).wf(),
        final(world).level.0 == (if old(world).level.0 < u32::MAX {
            old(world).level.0 + 1
        } else {
            old(world).level.0 as int
        }),
        final(world).difficulty.0 == level_difficulty(final(world).level.0 as int),
        final(world).player == old(world).player,
        final(world).state == old(world).state,
        final(world).enemies@ == old(world).enemies@,
        final(world).cannon == old(world).cannon,
        final(world).lasers@ == old(world).lasers@,
        final(world).bombs@ == old(world).bombs@,
        final(world).ufos@ == old(world).ufos@,
        final(world).ufo_timer == old(world).ufo_timer,
        final(world).lifes_ui == old(world).lifes_ui,
        final(world).score_ui == old(world).score_ui,
        final(world).enemy_movement == old(world).enemy_movement,
        final(world).note == old(world).note,
        final(world).sounds == old(world).sounds,
        final(world).menu == old(world).menu,
        final(world).game_over_sign == old(world).game_over_sign,
{
    if world.level.0 < u32::MAX {
        world.level = Level(world.level.0 + 1);
    }
    world.difficulty = start_difficulty(&world.level);
}

/// The Start Game button, in the menu or over a lost game: the menu goes,
/// what is left of a lost game goes, a new session starts at level one,
/// and play begins. In any other state, or without a press, nothing
/// happens.
pub fn handle_menu_buttons(world: &mut World, action: Option<ButtonAction>)
    requires
        old(world).wf(),
    ensures
        final(world).wf(),
        (action == Some(ButtonAction::StartGame) && (old(world).state == GameState::Menu
            || old(world).state == GameState::GameOver)) ==> {
            &&& final(world).state == GameState::Playing
            &&& final(world).player.lifes == 3
            &&& final(world).player.score == 0
            &&& final(world).level == Level(1)
            &&& final(world).menu.is_none()
            &&& final(world).game_over_sign.is_none()
            &&& final(world).enemies@ == formation()
        },
        !(action == Some(ButtonAction::StartGame) && (old(world).state == GameState::Menu
            || old(world).state == GameState::GameOver)) ==> *final(world) == *old(world),
{
    let in_menu = match world.state {
        GameState::Menu | GameState::GameOver => true,
        _ => false,
    };
    let start = match action {
        Some(ButtonAction::StartGame) => in_menu,
        None => false,
    };
    proof {
        if let Some(a) = action {
            match a {
                ButtonAction::StartGame => assert(action == Some(ButtonAction::StartGame)),
            }
        }
    }
    if start {
        despawn_menu(&mut world.menu, &mut world.game_over_sign);
        despawn_game(world);
        setup(&mut world.player, &mut world.difficulty, &mut world.enemy_movement);
        world.level = Level(1);
        enter_playing(world);
    }
}

/// A game in play with no lives left is lost: the menu comes back with the
/// game-over sign.
pub fn check_game_over(world: &mut World)
    requires
        old(world).wf(),
    ensures
        final(world).wf(),
        final(world).player == old(world).player,
        final(world).enemies@ == old(world).enemies@,
        (old(world).state == GameState::Playing && old(world).player.lifes == 0) ==> {
            &&& final(world).state == GameState::GameOver
            &&& final(world).menu.is_some()
            &&& final(world).game_over_sign.is_some()
            &&& same_play(*old(world), *final(world))
        },
        !(old(world).state == GameState::Playing && old(world).player.lifes == 0) ==> *final(world)
            == *old(world),
{
    if world.state == GameState::Playing && world.player.lifes == 0 {
        world.state = GameState::GameOver;
        spawn_menu(&mut world.menu, &mut world.game_over_sign, world.state);
    }
}

/// A game in play with no invaders left has its level complete: what is
/// left of the level goes and the next level is prepared.
pub fn check_level_complete(world: &mut World)
    requires
        old(world).wf(),
    ensures
        final(world).wf(),
        final(world).player == old(world).player,
        (old(world).state == GameState::Playing && old(world).enemies@.len() == 0) ==> {
            &&& final(world).state == GameState::LevelComplete
            &&& final(world).level.0 == (if old(world).level.0 < u32::MAX {
                old(world).level.0 + 1
            } else {
                old(world).level.0 as int
            })
            &&& final(world).difficulty.0 == level_difficulty(final(world).level.0 as int)
            &&& final(world).enemies@.len() == 0
            &&& final(world).cannon.is_none()
            &&& final(world).lasers@.len() == 0
            &&& final(world).bombs@.len() == 0
            &&& final(world).ufos@.len() == 0
            &&& final(world).ufo_timer.is_none()
            &&& final(world).lifes_ui.is_none()
            &&& final(world).score_ui.is_none()
            &&& final(world).enemy_movement == old(world).enemy_movement
            &&& final(world).note == old(world).note
            &&& final(world).sounds == old(world).sounds
            &&& final(world).menu == old(world).menu
            &&& final(world).game_over_sign == old(world).game_over_sign
        },
        !(old(world).state == GameState::Playing && old(world).enemies@.len() == 0)
            ==> *final(world) == *old(world),
{
    if world.state == GameState::Playing && world.enemies.len() == 0 {
        world.state = GameState::LevelComplete;
        despawn_game(world);
        start_next_level(world);
    }
}

/// Where the cannon stands after a frame's key states.
pub open spec fn cannon_moved(cannon: Option<CannonBundle>, keys: KeyState) -> Option<CannonBundle> {
    match cannon {
        None => None,
        Some(c) => Some(cannon_after(c, controller_events_of(keys))),
    }
}

/// Whether a frame's key states fire a shot from `cannon`.
pub open spec fn shoots(lasers: Seq<LaserBeamBundle>, cannon: Option<CannonBundle>, keys: KeyState) -> bool {
    lasers.len() == 0 && cannon.is_some() && keys.space_just_pressed
}

/// The lasers once a frame's shot, if any, is fired.
pub open spec fn fired_lasers(
    lasers: Seq<LaserBeamBundle>,
    cannon: Option<CannonBundle>,
    keys: KeyState,
) -> Seq<LaserBeamBundle> {
    if shoots(lasers, cannon, keys) {
        seq![LaserBeamBundle::new_spec(cannon.unwrap().transform)]
    } else {
        lasers
    }
}

pub open spec fn risen_lasers(s: Seq<LaserBeamBundle>) -> Seq<LaserBeamBundle> {
    s.map_values(|l: LaserBeamBundle| laser_risen(l)).filter(|l: LaserBeamBundle| laser_in_field(l))
}

pub open spec fn moved_ufos(s: Seq<UfoBundle>) -> Seq<UfoBundle> {
    s.map_values(|u: UfoBundle| ufo_moved(u)).filter(|u: UfoBundle| ufo_in_flight(u))
}

pub open spec fn fallen_bombs(s: Seq<BombBundle>) -> Seq<BombBundle> {
    s.map_values(|b: BombBundle| bomb_fallen(b)).filter(|b: BombBundle| bomb_in_field(b))
}

/// What the bombs do to the cannon: without one nothing happens; with one,
/// each bomb that meets it goes and costs a life.
pub open spec fn bomb_outcome(
    cannon: Option<CannonBundle>,
    bombs: Seq<BombBundle>,
    lifes: int,
    new_bombs: Seq<BombBundle>,
    new_lifes: int,
    hits: int,
) -> bool {
    match cannon {
        None => new_bombs == bombs && hits == 0 && new_lifes == lifes,
        Some(c) => {
            &&& new_bombs == bombs.filter(|b: BombBundle| bomb_misses_cannon(b, c))
            &&& hits == bombs.len() - new_bombs.len()
            &&& new_lifes == lives_after_hits(lifes, hits)
        },
    }
}

/// What a frame asks of the audio backend.
#[derive(Clone, Copy, Debug, PartialEq, Eq)]
pub struct FrameOutput {
    pub shot: bool,
    pub enemy_hit: bool,
    pub player_hits: usize,
}

/// The frame systems of a game in play, in their declared order.
#[verifier::rlimit(60)]
fn play_frame(world: &mut World, keys: &KeyState) -> (out: FrameOutput)
    requires
        old(world).wf(),
        old(world).player.score <= i32::MAX - MAX_BOUNTY,
    ensures
        final(world).wf(),
        final(world).player.score >= old(world).player.score,
        final(world).player.lifes <= old(world).player.lifes,
        final(world).state == old(world).state,
        !out.enemy_hit ==> final(world).player.score == old(world).player.score,
        out.player_hits == 0 ==> final(world).player.lifes == old(world).player.lifes,
        !out.enemy_hit ==> final(world).enemies@ == old(world).enemies@,
        final(world).enemies@ == old(world).enemies@ || exists|i: int|
            0 <= i < old(world).enemies@.len() && final(world).enemies@ == old(world).enemies@.remove(
                i,
            ),
        ({
            let c1 = cannon_moved(old(world).cannon, *keys);
            &&& final(world).cannon == c1
            &&& out.shot == shoots(old(world).lasers@, c1, *keys)
            &&& laser_hit_outcome(
                old(world).player.score as int,
                risen_lasers(fired_lasers(old(world).lasers@, c1, *keys)),
                old(world).enemies@,
                moved_ufos(old(world).ufos@),
                final(world).player.score as int,
                final(world).lasers@,
                final(world).enemies@,
                final(world).ufos@,
                out.enemy_hit,
            )
            &&& bomb_outcome(
                c1,
                fallen_bombs(old(world).bombs@),
                old(world).player.lifes as int,
                final(world).bombs@,
                final(world).player.lifes as int,
                out.player_hits as int,
            )
            &&& readouts_show(*final(world))
            &&& final(world).score_ui.is_some() == old(world).score_ui.is_some()
            &&& final(world).lifes_ui.is_some() == old(world).lifes_ui.is_some()
            &&& final(world).enemy_movement == old(world).enemy_movement
            &&& final(world).difficulty == old(world).difficulty
            &&& final(world).level == old(world).level
            &&& final(world).note == old(world).note
            &&& final(world).sounds == old(world).sounds
            &&& final(world).ufo_timer == old(world).ufo_timer
            &&& final(world).menu == old(world).menu
            &&& final(world).game_over_sign == old(world).game_over_sign
        }),
{
    let InputEvents { controller, fired } = player_input(keys);
    let mut fired = fired;
    move_cannon(&mut world.cannon, &controller);
    let shot = fire_laser(&mut world.lasers, &world.cannon, &mut fired);
    assert(forall|i: int| 0 <= i < world.lasers@.len() ==> laser_ok(#[trigger] world.lasers@[i]));

    let ghost lasers0 = world.lasers@;
    move_laser_beam(&mut world.lasers);
    proof {
        let m = lasers0.map_values(|l| laser_risen(l));
        lemma_filter_all(
            m,
            |l| laser_in_field(l),
            |l: crate::components::LaserBeamBundle| fits(l.transform.x) && l.transform.y >= -COORD_LIMIT,
        );
    }

    let ghost ufos0 = world.ufos@;
    move_ufo(&mut world.ufos);
    proof {
        let m = ufos0.map_values(|u| ufo_moved(u));
        lemma_filter_all(
            m,
            |u| ufo_in_flight(u),
            |u: crate::components::UfoBundle| fits(u.transform.y) && (u.direction.0 == 1
                || u.direction.0 == -1) && 0 <= u.hitpoints.0 <= MAX_BOUNTY,
        );
    }

    let ghost bombs0 = world.bombs@;
    move_bomb(&mut world.bombs);
    proof {
        let m = bombs0.map_values(|b| bomb_fallen(b));
        lemma_filter_all(
            m,
            |b| bomb_in_field(b),
            |b: BombBundle| fits(b.transform.x) && b.transform.y <= COORD_LIMIT,
        );
    }

    let ghost enemies1 = world.enemies@;
    let ghost ufos1 = world.ufos@;
    let hit = detect_laser_hit(&mut world.player, &mut world.lasers, &mut world.enemies, &mut world.ufos);
    proof {
        if world.enemies@ != enemies1 {
            let i = choose|i: int| 0 <= i < enemies1.len() && world.enemies@ == enemies1.remove(i);
            lemma_remove_all(enemies1, i, |e| enemy_ok(e));
            lemma_remove_keeps_cells(enemies1, i);
        }
        if world.ufos@ != ufos1 {
            let i = choose|i: int| 0 <= i < ufos1.len() && world.ufos@ == ufos1.remove(i);
            lemma_remove_all(ufos1, i, |u| ufo_ok(u));
        }
    }

    let ghost bombs1 = world.bombs@;
    let player_hits = detect_bomb_hit(&mut world.player, &mut world.bombs, &world.cannon);
    proof {
        if let Some(c) = world.cannon {
            lemma_filter_all(bombs1, |b| crate::systems::bomb_misses_cannon(b, c), |b| bomb_ok(b));
        }
    }

    let mut hits: Vec<HitEvent> = Vec::new();
    if hit.is_some() {
        hits.push(HitEvent);
    }
    let enemy_hit = play_enemy_hit_sound(&mut hits);
    update_score_ui(&world.player, &mut world.score_ui);
    update_lifes_ui(&world.player, &mut world.lifes_ui);
    FrameOutput { shot, enemy_hit, player_hits: player_hits.len() }
}

/// One frame. In play: input, cannon, laser, UFO and bomb motion, then the
/// collisions, the readouts, and the checks for a lost game and a cleared
/// level. A completed level goes back into play on the next frame. In the
/// menus nothing happens.
pub fn frame(world: &mut World, keys: &KeyState) -> (out: FrameOutput)
    requires
        old(world).wf(),
        old(world).player.score <= i32::MAX - MAX_BOUNTY,
    ensures
        final(world).wf(),
        final(world).lasers@.len() <= 1,
        final(world).ufos@.len() <= 1,
        final(world).player.score >= old(world).player.score,
        final(world).player.lifes <= old(world).player.lifes,
        (old(world).state == GameState::Playing && final(world).player.lifes == 0)
            ==> final(world).state == GameState::GameOver,
        old(world).state == GameState::Playing ==> ({
            let c1 = cannon_moved(old(world).cannon, *keys);
            let lasers = risen_lasers(fired_lasers(old(world).lasers@, c1, *keys));
            let ufos = moved_ufos(old(world).ufos@);
            let bombs = fallen_bombs(old(world).bombs@);
            let lost = final(world).player.lifes == 0;
            let cleared = !lost && final(world).enemies@.len() == 0;
            &&& out.shot == shoots(old(world).lasers@, c1, *keys)
            &&& !out.enemy_hit ==> final(world).enemies@ == old(world).enemies@
            &&& final(world).enemies@ == old(world).enemies@ || exists|i: int|
                0 <= i < old(world).enemies@.len() && final(world).enemies@ == old(
                    world,
                ).enemies@.remove(i)
            &&& final(world).state == (if lost {
                GameState::GameOver
            } else if cleared {
                GameState::LevelComplete
            } else {
                GameState::Playing
            })
            &&& lost ==> final(world).menu.is_some() && final(world).game_over_sign.is_some()
            &&& !lost ==> final(world).menu == old(world).menu && final(world).game_over_sign
                == old(world).game_over_sign
            &&& final(world).enemy_movement == old(world).enemy_movement
            &&& final(world).note == old(world).note
            &&& !cleared ==> {
                &&& final(world).cannon == c1
                &&& laser_hit_outcome(
                    old(world).player.score as int,
                    lasers,
                    old(world).enemies@,
                    ufos,
                    final(world).player.score as int,
                    final(world).lasers@,
                    final(world).enemies@,
                    final(world).ufos@,
                    out.enemy_hit,
                )
                &&& bomb_outcome(
                    c1,
                    bombs,
                    old(world).player.lifes as int,
                    final(world).bombs@,
                    final(world).player.lifes as int,
                    out.player_hits as int,
                )
                &&& readouts_show(*final(world))
                &&& final(world).score_ui.is_some() == old(world).score_ui.is_some()
                &&& final(world).lifes_ui.is_some() == old(world).lifes_ui.is_some()
                &&& final(world).ufo_timer == old(world).ufo_timer
                &&& final(world).difficulty == old(world).difficulty
                &&& final(world).level == old(world).level
            }
            &&& cleared ==> {
                &&& exists|ml: Seq<LaserBeamBundle>, mu: Seq<UfoBundle>|
                    laser_hit_outcome(
                        old(world).player.score as int,
                        lasers,
                        old(world).enemies@,
                        ufos,
                        final(world).player.score as int,
                        ml,
                        final(world).enemies@,
                        mu,
                        out.enemy_hit,
                    )
                &&& exists|mb: Seq<BombBundle>|
                    bomb_outcome(
                        c1,
                        bombs,
                        old(world).player.lifes as int,
                        mb,
                        final(world).player.lifes as int,
                        out.player_hits as int,
                    )
                &&& final(world).cannon.is_none()
                &&& final(world).lasers@.len() == 0
                &&& final(world).bombs@.len() == 0
                &&& final(world).ufos@.len() == 0
                &&& final(world).ufo_timer.is_none()
                &&& final(world).lifes_ui.is_none()
                &&& final(world).score_ui.is_none()
                &&& final(world).level.0 == (if old(world).level.0 < u32::MAX {
                    old(world).level.0 + 1
                } else {
                    old(world).level.0 as int
                })
                &&& final(world).difficulty.0 == level_difficulty(final(world).level.0 as int)
            }
        }),
        old(world).state == GameState::LevelComplete ==> {
            &&& final(world).state == GameState::Playing
            &&& final(world).enemies@ == formation()
            &&& final(world).difficulty.0 == level_difficulty(old(world).level.0 as int)
            &&& final(world).cannon == Some(
                CannonBundle {
                    marker: Cannon,
                    transform: Transform { x: 0, y: CANNON_Y },
                    size: Size { width: 26, height: 16 },
                },
            )
            &&& final(world).ufo_timer == Some(
                UfoSpawnTimer { duration_ms: UFO_SPAWN_PERIOD_MS, elapsed_ms: 0 },
            )
            &&& final(world).player == old(world).player
            &&& final(world).level == old(world).level
        },
        (old(world).state == GameState::Menu || old(world).state == GameState::GameOver)
            ==> *final(world) == *old(world),
{
    let none = FrameOutput { shot: false, enemy_hit: false, player_hits: 0 };
    match world.state {
        GameState::LevelComplete => {
            if world.enemies.len() > 0 {
                world.enemies.clear();
            }
            enter_playing(world);
            none
        },
        GameState::Playing => {
            let out = play_frame(world, keys);
            let ghost played = world.enemies@;
            let ghost mid_lasers = world.lasers@;
            let ghost mid_ufos = world.ufos@;
            let ghost mid_bombs = world.bombs@;
            check_game_over(world);
            check_level_complete(world);
            assert(world.enemies@ =~= played);
            proof {
                let c1 = cannon_moved(old(world).cannon, *keys);
                assert(laser_hit_outcome(
                    old(world).player.score as int,
                    risen_lasers(fired_lasers(old(world).lasers@, c1, *keys)),
                    old(world).enemies@,
                    moved_ufos(old(world).ufos@),
                    world.player.score as int,
                    mid_lasers,
                    world.enemies@,
                    mid_ufos,
                    out.enemy_hit,
                ));
                assert(bomb_outcome(
                    c1,
                    fallen_bombs(old(world).bombs@),
                    old(world).player.lifes as int,
                    mid_bombs,
                    world.player.lifes as int,
                    out.player_hits as int,
                ));
            }
            out
        },
        _ => none,
    }
}

/// Every invader can take the next step of the sweep, or descend, and stay
/// within the world's range.
pub open spec fn sweep_has_room(world: &World) -> bool {
    forall|i: int|
        0 <= i < world.enemies@.len() ==> {
            &&& -COORD_LIMIT <= #[trigger] world.enemies@[i].transform.x + sweep_step(
                world.enemy_movement,
            ) <= COORD_LIMIT
            &&& -COORD_LIMIT <= world.enemies@[i].transform.y - SPRITE_SIZE
        }
}

/// What a fixed tick reports: whether the formation touched a wall, the
/// note of the marching cue to play, and whether a UFO appeared.
#[derive(Debug, PartialEq, Eq)]
pub struct FixedOutput {
    pub advancement: bool,
    pub note_asset: Option<String>,
    pub ufo_spawned: bool,
}

/// What one fixed tick of a game in play does, given invader `i`'s bomb
/// roll at `rolls[i]` and a new UFO's bounty at `bounty_index`.
pub open spec fn fixed_tick_done(
    w0: World,
    w1: World,
    out: FixedOutput,
    rolls: Seq<u32>,
    bounty_index: int,
) -> bool {
    let m0 = w0.enemy_movement;
    let dx = sweep_step(m0);
    let delta = (w0.difficulty.0 * MS_PER_DIFFICULTY) as u64;
    let target = target_difficulty(w0.level.0 as int, w0.enemies@.len() as int);
    // the formation descends after a wall contact, else sweeps one step
    &&& m0.advance ==> {
        &&& w1.enemies@ == w0.enemies@.map_values(|e: EnemyBundle| descended(e))
        &&& w1.enemy_movement == (EnemyMovement { advance: false, ..m0 })
        &&& !out.advancement
    }
    &&& !m0.advance ==> {
        &&& w1.enemies@ == w0.enemies@.map_values(|e: EnemyBundle| swept(e, dx))
        &&& out.advancement == wall_contact(w0.enemies@, dx)
        &&& out.advancement ==> w1.enemy_movement == (EnemyMovement {
            direction: (-m0.direction) as i64,
            speed: m0.speed,
            advance: true,
        })
        &&& !out.advancement ==> w1.enemy_movement == m0
    }
    &&& (w1.enemy_movement.direction == -m0.direction) <==> out.advancement
    // the front rank drops bombs from where it now stands
    &&& w1.bombs@ == w0.bombs@ + drops(w1.enemies@, rolls, w1.enemies@.len() as int)
    // the marching cue moves on
    &&& out.note_asset matches Some(note) && note@ == w0.sounds.note_asset(w0.note.0)
    &&& w1.note.0 == next_note(w0.note.0)
    // the UFO timer runs one period
    &&& timer_ticked(w0.ufo_timer, w1.ufo_timer, delta)
    &&& out.ufo_spawned == ufo_due(w0.ufo_timer, w0.ufos@, delta)
    &&& out.ufo_spawned ==> w1.ufos@ == seq![
        UfoBundle::with_bounty_spec(
            ufo_start_x(w1.enemy_movement.direction),
            UFO_Y,
            w1.enemy_movement.direction,
            bounty_index,
        ),
    ]
    &&& !out.ufo_spawned ==> w1.ufos@ == w0.ufos@
    // the difficulty follows the formation's losses
    &&& w1.difficulty.0 == (if w0.difficulty.0 <= target {
        w0.difficulty.0 as int
    } else {
        target
    })
    // nothing else changes
    &&& w1.player == w0.player
    &&& w1.cannon == w0.cannon
    &&& w1.lasers@ == w0.lasers@
    &&& w1.state == w0.state
    &&& w1.level == w0.level
    &&& w1.sounds == w0.sounds
    &&& w1.lifes_ui == w0.lifes_ui
    &&& w1.score_ui == w0.score_ui
    &&& w1.menu == w0.menu
    &&& w1.game_over_sign == w0.game_over_sign
}

/// One fixed tick of a game in play, reading invader `i`'s bomb roll at
/// `rolls[i]` and a new UFO's bounty at `bounty_index`: the formation
/// sweeps or descends, the front rank drops bombs, the marching cue moves
/// on, the UFO timer runs for one period, and the difficulty follows the
/// formation's losses. Outside play nothing happens.
#[verifier::rlimit(60)]
pub fn fixed_tick_with(world: &mut World, rolls: &Vec<u32>, bounty_index: usize) -> (out: FixedOutput)
    requires
        old(world).wf(),
        sweep_has_room(old(world)),
        rolls@.len() == old(world).enemies@.len(),
        bounty_index < UFO_BOUNTY_COUNT,
    ensures
        final(world).wf(),
        old(world).state != GameState::Playing ==> *final(world) == *old(world) && !out.advancement
            && !out.ufo_spawned,
        old(world).state == GameState::Playing ==> fixed_tick_done(
            *old(world),
            *final(world),
            out,
            rolls@,
            bounty_index as int,
        ),
{
    match world.state {
        GameState::Playing => {},
        _ => return FixedOutput { advancement: false, note_asset: None, ufo_spawned: false },
    }
    let delta_ms = fixed_period_ms(&world.difficulty);
    let ghost enemies0 = world.enemies@;
    let ghost step = sweep_step(world.enemy_movement);
    let ghost was_advance = world.enemy_movement.advance;
    let advancement = move_enemies(&mut world.enemy_movement, &mut world.enemies);
    proof {
        if was_advance {
            lemma_map_keeps_cells(enemies0, |e: EnemyBundle| descended(e));
        } else {
            lemma_map_keeps_cells(enemies0, |e: EnemyBundle| swept(e, step));
        }
    }
    assert(forall|i: int| 0 <= i < world.enemies@.len() ==> enemy_ok(#[trigger] world.enemies@[i]));
    let ghost bombs0 = world.bombs@;
    drop_bomb_with_rolls(&world.enemies, &mut world.bombs, rolls);
    proof {
        lemma_drops_ok(world.enemies@, rolls@, world.enemies@.len() as int);
        let d = drops(world.enemies@, rolls@, world.enemies@.len() as int);
        assert forall|i: int| 0 <= i < world.bombs@.len() implies bomb_ok(#[trigger] world.bombs@[i]) by {
            if i >= bombs0.len() {
                assert(world.bombs@[i] == d[i - bombs0.len()]);
            } else {
                assert(world.bombs@[i] == bombs0[i]);
            }
        }
    }
    let note = play_invader_sound(&world.sounds, &mut world.note);
    let ufo_spawned = spawn_ufo_with_bounty(
        &mut world.ufo_timer,
        &mut world.ufos,
        &world.enemy_movement,
        delta_ms,
        bounty_index,
    );
    increase_difficulty(&mut world.difficulty, &world.level, world.enemies.len());
    FixedOutput { advancement: advancement.is_some(), note_asset: Some(note), ufo_spawned }
}

/// One fixed tick of a game in play, with the bomb rolls and a new UFO's
/// bounty drawn at random. Outside play nothing happens.
pub fn fixed_tick(world: &mut World) -> (out: FixedOutput)
    requires
        old(world).wf(),
        sweep_has_room(old(world)),
    ensures
        final(world).wf(),
        old(world).state != GameState::Playing ==> *final(world) == *old(world) && !out.advancement
            && !out.ufo_spawned,
        old(world).state == GameState::Playing ==> exists|rolls: Seq<u32>, bounty_index: int|
            {
                &&& rolls.len() == old(world).enemies@.len()
                &&& forall|i: int| 0 <= i < rolls.len() ==> #[trigger] rolls[i] < 100
                &&& 0 <= bounty_index < UFO_BOUNTY_COUNT
                &&& #[trigger] fixed_tick_done(
                    *old(world),
                    *final(world),
                    out,
                    rolls,
                    bounty_index,
                )
            },
{
    let mut rolls: Vec<u32> = Vec::new();
    let n = world.enemies.len();
    for i in 0..n
        invariant
            rolls@.len() == i,
            forall|k: int| 0 <= k < rolls@.len() ==> #[trigger] rolls@[k] < 100,
    {
        rolls.push(random_below(100));
    }
    let bounty_index = random_below(UFO_BOUNTY_COUNT as u32) as usize;
    let out = fixed_tick_with(world, &rolls, bounty_index);
    assert(old(world).state == GameState::Playing ==> fixed_tick_done(
        *old(world),
        *world,
        out,
        rolls@,
        bounty_index as int,
    ));
    out
}

} // verus!
