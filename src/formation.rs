use vstd::prelude::*;

use crate::components::{
    BombBundle, Difficulty, Enemy, EnemyAdvancement, EnemyBundle, EnemyKind, EnemyMovement,
    EnemyPosition, Level, UfoBundle, UfoSpawnTimer, timer_after, UFO_BOUNTY_COUNT,
};
use crate::consts::{
    BOMB_DROP_THRESHOLD, DEFAULT_DIFFICULTY, FORMATION_COLUMNS, FORMATION_ROWS, FORMATION_SIZE,
    LEFT_WALL, LEVEL_DIFFICULTY_STEP, MIN_DIFFICULTY, MS_PER_DIFFICULTY, RIGHT_WALL, SPRITE_SIZE,
    TOP_WALL, UFO_Y,
};
use crate::geometry::Transform;
use crate::random::random_below;

verus! {

/// An invader one sprite lower.
pub open spec fn descended(e: EnemyBundle) -> EnemyBundle {
    EnemyBundle {
        transform: Transform { x: e.transform.x, y: (e.transform.y - SPRITE_SIZE) as i64 },
        ..e
    }
}

/// An invader moved `dx` along the sweep.
pub open spec fn swept(e: EnemyBundle, dx: int) -> EnemyBundle {
    EnemyBundle { transform: Transform { x: (e.transform.x + dx) as i64, y: e.transform.y }, ..e }
}

/// A centre at `x` puts a sprite's width past a wall.
pub open spec fn hits_wall(x: int) -> bool {
    x + SPRITE_SIZE > RIGHT_WALL || x - SPRITE_SIZE < LEFT_WALL
}

/// Some invader, moved `dx`, would touch a wall.
pub open spec fn wall_contact(s: Seq<EnemyBundle>, dx: int) -> bool {
    exists|i: int| 0 <= i < s.len() && hits_wall(#[trigger] s[i].transform.x + dx)
}

/// The step of the sweep: its speed along its direction (a unit sign).
pub open spec fn sweep_step(m: EnemyMovement) -> int {
    if m.direction > 0 {
        m.speed as int
    } else {
        -m.speed
    }
}

/// Every invader can take the next step of the sweep, or descend, without
/// leaving the range of `i64`.
pub open spec fn room_to_sweep(m: EnemyMovement, s: Seq<EnemyBundle>) -> bool {
    forall|i: int|
        0 <= i < s.len() ==> {
            &&& i64::MIN + SPRITE_SIZE <= #[trigger] s[i].transform.y
            &&& i64::MIN <= s[i].transform.x + sweep_step(m) <= i64::MAX
        }
}

/// Advances the formation by one fixed tick. After a wall contact the tick
/// is a descent by one sprite; otherwise every invader moves one step along
/// the sweep, and if any of them thereby touches a wall the sweep turns
/// around, the next tick is marked a descent, and an advancement event is
/// emitted.
#[verifier::loop_isolation(false)]
pub fn move_enemies(movement: &mut EnemyMovement, enemies: &mut Vec<EnemyBundle>) -> (advancement:
    Option<EnemyAdvancement>)
    requires
        old(movement).wf(),
        room_to_sweep(*old(movement), old(enemies)@),
    ensures
        final(movement).wf(),
        final(movement).speed == old(movement).speed,
        (final(movement).direction == -old(movement).direction) <==> advancement.is_some(),
        old(movement).advance ==> {
            &&& final(enemies)@ == old(enemies)@.map_values(|e: EnemyBundle| descended(e))
            &&& *final(movement) == (EnemyMovement { advance: false, ..*old(movement) })
            &&& advancement.is_none()
        },
        !old(movement).advance ==> {
            let dx = sweep_step(*old(movement));
            &&& final(enemies)@ == old(enemies)@.map_values(|e: EnemyBundle| swept(e, dx))
            &&& advancement.is_some() == wall_contact(old(enemies)@, dx)
            &&& advancement.is_some() ==> *final(movement) == (EnemyMovement {
                direction: (-old(movement).direction) as i64,
                speed: old(movement).speed,
                advance: true,
            })
            &&& advancement.is_none() ==> *final(movement) == *old(movement)
        },
{
    let n = enemies.len();
    if movement.advance {
        for i in 0..n
            invariant
                enemies@.len() == n,
                forall|j: int| 0 <= j < i ==> enemies@[j] == descended(#[trigger] old(enemies)@[j]),
                forall|j: int| i <= j < n ==> enemies@[j] == old(enemies)@[j],
        {
            let mut e = enemies[i];
            e.transform.y = e.transform.y - SPRITE_SIZE;
            enemies.set(i, e);
        }
        assert(enemies@ =~= old(enemies)@.map_values(|e: EnemyBundle| descended(e)));
        movement.advance = false;
        None
    } else {
        let dx: i64 = if movement.direction > 0 {
            movement.speed
        } else {
            -movement.speed
        };
        assert(dx == sweep_step(*old(movement)));
        let mut contact = false;
        for i in 0..n
            invariant
                enemies@.len() == n,
                dx == sweep_step(*old(movement)),
                forall|j: int| 0 <= j < i ==> enemies@[j] == swept(#[trigger] old(enemies)@[j], dx as int),
                forall|j: int| i <= j < n ==> enemies@[j] == old(enemies)@[j],
                contact <==> exists|j: int| 0 <= j < i && hits_wall(#[trigger] old(enemies)@[j].transform.x + dx),
        {
            let mut e = enemies[i];
            let new_x = e.transform.x + dx;
            if new_x > RIGHT_WALL - SPRITE_SIZE || new_x < LEFT_WALL + SPRITE_SIZE {
                contact = true;
            }
            e.transform.x = new_x;
            enemies.set(i, e);
        }
        assert(enemies@ =~= old(enemies)@.map_values(|e: EnemyBundle| swept(e, dx as int)));
        if contact {
            movement.reverse_direction();
            movement.advance = true;
            Some(EnemyAdvancement)
        } else {
            None
        }
    }
}

/// Invader `i` is the lowest of its column: no invader of the same column
/// sits in a higher row.
pub open spec fn is_front_rank(s: Seq<EnemyBundle>, i: int) -> bool {
    forall|j: int|
        0 <= j < s.len() && #[trigger] s[j].position.x == s[i].position.x ==> s[j].position.y
            <= s[i].position.y
}

/// The bombs the first `k` invaders drop given one roll in `0..100` each:
/// a front-rank invader drops one at its centre when its roll is under the
/// threshold.
pub open spec fn drops(s: Seq<EnemyBundle>, rolls: Seq<u32>, k: int) -> Seq<BombBundle>
    decreases k,
{
    if k <= 0 {
        Seq::empty()
    } else {
        let prev = drops(s, rolls, k - 1);
        if is_front_rank(s, k - 1) && rolls[k - 1] < BOMB_DROP_THRESHOLD {
            prev.push(BombBundle::new_spec(s[k - 1].transform))
        } else {
            prev
        }
    }
}

fn front_rank(enemies: &Vec<EnemyBundle>, i: usize) -> (r: bool)
    requires
        i < enemies@.len(),
    ensures
        r == is_front_rank(enemies@, i as int),
{
    let col = enemies[i].position.x;
    let row = enemies[i].position.y;
    let n = enemies.len();
    for j in 0..n
        invariant
            n == enemies@.len(),
            col == enemies@[i as int].position.x,
            row == enemies@[i as int].position.y,
            forall|k: int|
                0 <= k < j && #[trigger] enemies@[k].position.x == col ==> enemies@[k].position.y
                    <= row,
    {
        if enemies[j].position.x == col && enemies[j].position.y > row {
            return false;
        }
    }
    true
}

/// Drops bombs from the front rank, reading invader `i`'s roll at `rolls[i]`.
pub fn drop_bomb_with_rolls(
    enemies: &Vec<EnemyBundle>,
    bombs: &mut Vec<BombBundle>,
    rolls: &Vec<u32>,
)
    requires
        rolls@.len() == enemies@.len(),
    ensures
        final(bombs)@ == old(bombs)@ + drops(enemies@, rolls@, enemies@.len() as int),
{
    let n = enemies.len();
    for i in 0..n
        invariant
            n == enemies@.len(),
            rolls@.len() == n,
            bombs@ == old(bombs)@ + drops(enemies@, rolls@, i as int),
    {
        if front_rank(enemies, i) && rolls[i] < BOMB_DROP_THRESHOLD {
            bombs.push(BombBundle::new(enemies[i].transform.x, enemies[i].transform.y));
            assert(bombs@ =~= old(bombs)@ + drops(enemies@, rolls@, i + 1));
        } else {
            assert(bombs@ =~= old(bombs)@ + drops(enemies@, rolls@, i + 1));
        }
    }
}

/// Drops bombs from the front rank: each front-rank invader drops one with
/// a chance of ten in a hundred.
pub fn drop_bomb(enemies: &Vec<EnemyBundle>, bombs: &mut Vec<BombBundle>)
    ensures
        exists|rolls: Seq<u32>|
            {
                &&& rolls.len() == enemies@.len()
                &&& forall|i: int| 0 <= i < rolls.len() ==> #[trigger] rolls[i] < 100
                &&& final(bombs)@ == old(bombs)@ + drops(enemies@, rolls, enemies@.len() as int)
            },
{
    let mut rolls: Vec<u32> = Vec::new();
    let n = enemies.len();
    for i in 0..n
        invariant
            rolls@.len() == i,
            forall|k: int| 0 <= k < rolls@.len() ==> #[trigger] rolls@[k] < 100,
    {
        rolls.push(random_below(100));
    }
    drop_bomb_with_rolls(enemies, bombs, &rolls);
}

/// Where a UFO enters: at the wall opposite the sweep's direction.
pub open spec fn ufo_start_x(direction: i64) -> i64 {
    if direction > 0 {
        (LEFT_WALL + SPRITE_SIZE / 2) as i64
    } else {
        (RIGHT_WALL - SPRITE_SIZE / 2) as i64
    }
}

/// The UFO timer runs on; a UFO is due when it expires and none is flying.
pub open spec fn ufo_due(timer: Option<UfoSpawnTimer>, ufos: Seq<UfoBundle>, delta_ms: u64) -> bool {
    timer matches Some(t) && t.elapsed_ms + delta_ms >= t.duration_ms && ufos.len() == 0
}

pub open spec fn timer_ticked(old_timer: Option<UfoSpawnTimer>, new_timer: Option<UfoSpawnTimer>, delta_ms: u64) -> bool {
    match old_timer {
        None => new_timer.is_none(),
        Some(t) => new_timer == Some(timer_after(t, delta_ms as int)),
    }
}

fn tick_ufo_timer(timer: &mut Option<UfoSpawnTimer>, ufos: &Vec<UfoBundle>, delta_ms: u64) -> (due: bool)
    requires
        *old(timer) matches Some(t) ==> t.wf(),
    ensures
        due == ufo_due(*old(timer), ufos@, delta_ms),
        timer_ticked(*old(timer), *final(timer), delta_ms),
        *final(timer) matches Some(t) ==> t.wf(),
{
    match timer {
        None => false,
        Some(t) => {
            let finished = t.tick(delta_ms);
            finished && ufos.len() == 0
        },
    }
}

/// Runs the UFO timer on by `delta_ms`; when it expires with no UFO in
/// flight, spawns one at the wall opposite the sweep's direction, flying
/// along it, with the bounty at `bounty_index`. Tells whether it spawned one.
pub fn spawn_ufo_with_bounty(
    timer: &mut Option<UfoSpawnTimer>,
    ufos: &mut Vec<UfoBundle>,
    movement: &EnemyMovement,
    delta_ms: u64,
    bounty_index: usize,
) -> (spawned: bool)
    requires
        *old(timer) matches Some(t) ==> t.wf(),
        bounty_index < UFO_BOUNTY_COUNT,
    ensures
        spawned == ufo_due(*old(timer), old(ufos)@, delta_ms),
        timer_ticked(*old(timer), *final(timer), delta_ms),
        *final(timer) matches Some(t) ==> t.wf(),
        spawned ==> final(ufos)@ == seq![
            UfoBundle::with_bounty_spec(
                ufo_start_x(movement.direction),
                UFO_Y,
                movement.direction,
                bounty_index as int,
            ),
        ],
        !spawned ==> final(ufos)@ == old(ufos)@,
{
    if tick_ufo_timer(timer, ufos, delta_ms) {
        let x = if movement.direction > 0 {
            LEFT_WALL + SPRITE_SIZE / 2
        } else {
            RIGHT_WALL - SPRITE_SIZE / 2
        };
        ufos.push(UfoBundle::with_bounty(x, UFO_Y, movement.direction, bounty_index));
        assert(ufos@ =~= seq![
            UfoBundle::with_bounty_spec(
                ufo_start_x(movement.direction),
                UFO_Y,
                movement.direction,
                bounty_index as int,
            ),
        ]);
        true
    } else {
        false
    }
}

/// Runs the UFO timer on by `delta_ms`; when it expires with no UFO in
/// flight, spawns one at the wall opposite the sweep's direction, flying
/// along it, with a bounty drawn at random. Tells whether it spawned one.
pub fn spawn_ufo(
    timer: &mut Option<UfoSpawnTimer>,
    ufos: &mut Vec<UfoBundle>,
    movement: &EnemyMovement,
    delta_ms: u64,
) -> (spawned: bool)
    requires
        *old(timer) matches Some(t) ==> t.wf(),
    ensures
        spawned == ufo_due(*old(timer), old(ufos)@, delta_ms),
        timer_ticked(*old(timer), *final(timer), delta_ms),
        *final(timer) matches Some(t) ==> t.wf(),
        spawned ==> exists|k: int|
            0 <= k < UFO_BOUNTY_COUNT && final(ufos)@ == seq![
                #[trigger] UfoBundle::with_bounty_spec(
                    ufo_start_x(movement.direction),
                    UFO_Y,
                    movement.direction,
                    k,
                ),
            ],
        !spawned ==> final(ufos)@ == old(ufos)@,
{
    let k = random_below(UFO_BOUNTY_COUNT as u32) as usize;
    spawn_ufo_with_bounty(timer, ufos, movement, delta_ms, k)
}

/// The difficulty a level starts with: ten less per level already cleared,
/// never below the floor.
pub open spec fn level_difficulty(level: int) -> int {
    let d = DEFAULT_DIFFICULTY - LEVEL_DIFFICULTY_STEP * (level - 1);
    if d < MIN_DIFFICULTY {
        MIN_DIFFICULTY as int
    } else {
        d
    }
}

/// The difficulty a level has reached with `remaining` invaders left: one
/// less per invader destroyed, never below the floor.
pub open spec fn target_difficulty(level: int, remaining: int) -> int {
    let killed = if remaining >= FORMATION_SIZE {
        0
    } else {
        FORMATION_SIZE - remaining
    };
    let d = level_difficulty(level) - killed;
    if d < MIN_DIFFICULTY {
        MIN_DIFFICULTY as int
    } else {
        d
    }
}

/// The difficulty a level starts with.
pub fn start_difficulty(level: &Level) -> (d: Difficulty)
    requires
        level.0 >= 1,
    ensures
        d.0 == level_difficulty(level.0 as int),
{
    let d: i64 = DEFAULT_DIFFICULTY as i64 - LEVEL_DIFFICULTY_STEP as i64 * (level.0 as i64 - 1);
    if d < MIN_DIFFICULTY as i64 {
        Difficulty(MIN_DIFFICULTY)
    } else {
        Difficulty(d as i32)
    }
}

/// Lowers the difficulty to what the level has reached, so the sweep
/// speeds up as the formation shrinks; it never rises.
pub fn increase_difficulty(difficulty: &mut Difficulty, level: &Level, enemies_left: usize)
    requires
        level.0 >= 1,
    ensures
        final(difficulty).0 == (if old(difficulty).0 <= target_difficulty(
            level.0 as int,
            enemies_left as int,
        ) {
            old(difficulty).0 as int
        } else {
            target_difficulty(level.0 as int, enemies_left as int)
        }),
{
    let base = start_difficulty(level);
    let killed: i64 = if enemies_left >= FORMATION_SIZE {
        0
    } else {
        (FORMATION_SIZE - enemies_left) as i64
    };
    let mut target: i64 = base.0 as i64 - killed;
    if target < MIN_DIFFICULTY as i64 {
        target = MIN_DIFFICULTY as i64;
    }
    if target < difficulty.0 as i64 {
        difficulty.0 = target as i32;
    }
}

/// The fixed-step period a difficulty gives: ten milliseconds per unit.
pub fn fixed_period_ms(difficulty: &Difficulty) -> (ms: u64)
    requires
        difficulty.0 >= 0,
    ensures
        ms == difficulty.0 * MS_PER_DIFFICULTY,
{
    difficulty.0 as u64 * MS_PER_DIFFICULTY
}

/// The invader of a formation cell: squids in the top row, crabs in the
/// next two, octopuses below.
pub open spec fn enemy_of_row(row: int) -> Enemy {
    if row == 0 {
        Enemy { kind: EnemyKind::Squid, points: 30, width: 16, height: 16 }
    } else if row <= 2 {
        Enemy { kind: EnemyKind::Crab, points: 20, width: 11, height: 16 }
    } else {
        Enemy { kind: EnemyKind::Octopus, points: 10, width: 24, height: 16 }
    }
}

/// Horizontal centre of formation column `col`: columns stand a sprite and
/// a unit apart, the first one a sprite inside the left edge
/// (`LEFT_WALL + SPRITE_SIZE`).
pub open spec fn column_x(col: int) -> int {
    -192 + 33 * col
}

/// Vertical centre of formation row `row`: rows stand a sprite and a unit
/// apart, the first one a sprite below the upper edge
/// (`TOP_WALL - SPRITE_SIZE`).
pub open spec fn row_y(row: int) -> int {
    174 - 33 * row
}

/// The invader spawned in cell (`col`, `row`).
pub open spec fn formation_cell(row: int, col: int) -> EnemyBundle {
    let e = enemy_of_row(row);
    EnemyBundle {
        position: EnemyPosition { x: col as u8, y: row as u8 },
        ..EnemyBundle::new_spec(e, column_x(col) as i64, row_y(row) as i64)
    }
}

/// The full formation, row by row, each row left to right.
pub open spec fn formation() -> Seq<EnemyBundle> {
    Seq::new(
        FORMATION_SIZE as nat,
        |i: int| formation_cell(i / FORMATION_COLUMNS as int, i % FORMATION_COLUMNS as int),
    )
}

/// Spawns the five-by-eleven formation after the invaders already there.
pub fn spawn_enemies(enemies: &mut Vec<EnemyBundle>)
    ensures
        final(enemies)@ == old(enemies)@ + formation(),
{
    let ghost start = old(enemies)@.len();
    let mut y: i64 = TOP_WALL - SPRITE_SIZE;
    assert(y == row_y(0));
    let mut row: u8 = 0;
    while row < FORMATION_ROWS
        invariant
            start == old(enemies)@.len(),
            row <= FORMATION_ROWS,
            enemies@.len() == start + row * FORMATION_COLUMNS,
            y == row_y(row as int),
            enemies@.subrange(0, start as int) == old(enemies)@,
            forall|k: int|
                0 <= k < row * FORMATION_COLUMNS ==> enemies@[start + k] == #[trigger] formation_cell(
                    k / FORMATION_COLUMNS as int,
                    k % FORMATION_COLUMNS as int,
                ),
        decreases FORMATION_ROWS - row,
    {
        let enemy = if row == 0 {
            Enemy::squid()
        } else if row <= 2 {
            Enemy::crab()
        } else {
            Enemy::octopus()
        };
        let mut col: u8 = 0;
        while col < FORMATION_COLUMNS
            invariant
                start == old(enemies)@.len(),
                0 <= row < FORMATION_ROWS,
                col <= FORMATION_COLUMNS,
                enemy == enemy_of_row(row as int),
                enemies@.len() == start + row * FORMATION_COLUMNS + col,
                y == row_y(row as int),
                enemies@.subrange(0, start as int) == old(enemies)@,
                forall|k: int|
                    0 <= k < row * FORMATION_COLUMNS + col ==> enemies@[start + k]
                        == #[trigger] formation_cell(
                        k / FORMATION_COLUMNS as int,
                        k % FORMATION_COLUMNS as int,
                    ),
            decreases FORMATION_COLUMNS - col,
        {
            let x: i64 = LEFT_WALL + SPRITE_SIZE + 33 * col as i64;
            let mut bundle = EnemyBundle::new(enemy, x, y);
            bundle.position = EnemyPosition { x: col, y: row };
            let ghost k = row * FORMATION_COLUMNS + col;
            assert(k / FORMATION_COLUMNS as int == row && k % FORMATION_COLUMNS as int == col);
            enemies.push(bundle);
            assert(enemies@.subrange(0, start as int) =~= old(enemies)@);
            col = col + 1;
        }
        y = y - 33;
        row = row + 1;
    }
    assert(enemies@ =~= old(enemies)@ + formation());
}

} // verus!

