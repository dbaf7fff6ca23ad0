use vstd::prelude::*;

use crate::components::{
    BombBundle, CannonBundle, EnemyBundle, HitEvent, LaserBeamBundle, LifesUI, Player,
    PlayerHitEvent, ScoreUI, UfoBundle, UfoSpawnTimer,
};
use crate::consts::{
    BOMB_SPEED, BOTTOM_WALL, CANNON_MAX_X, CANNON_MIN_X, CANNON_SPEED, CANNON_Y, LASER_SPEED,
    LEFT_WALL, MAX_BOUNTY, RIGHT_WALL, SPRITE_SIZE, TOP_WALL, UFO_SPAWN_PERIOD_MS, UFO_SPEED,
};
use crate::geometry::{intersects, overlaps, Transform};
use crate::input::{direction_sum, sum_directions, ControllerEvent, Fired};
use crate::seq_facts::lemma_map_filter_step;
use crate::text::signed_decimal;

verus! {

pub open spec fn clamp(v: int, lo: int, hi: int) -> int {
    if v < lo {
        lo
    } else if v > hi {
        hi
    } else {
        v
    }
}

/// Where the cannon stands after a frame's steering requests.
pub open spec fn cannon_after(c: CannonBundle, events: Seq<ControllerEvent>) -> CannonBundle {
    CannonBundle {
        transform: Transform {
            x: clamp(
                c.transform.x + CANNON_SPEED * direction_sum(events),
                CANNON_MIN_X as int,
                CANNON_MAX_X as int,
            ) as i64,
            y: c.transform.y,
        },
        ..c
    }
}

/// Moves the cannon by three units per net steering request and keeps it
/// half a sprite inside the walls. Without a cannon nothing happens.
pub fn move_cannon(cannon: &mut Option<CannonBundle>, events: &Vec<ControllerEvent>)
    ensures
        match *old(cannon) {
            None => final(cannon).is_none(),
            Some(c) => *final(cannon) == Some(cannon_after(c, events@)),
        },
        final(cannon).is_some() ==> CANNON_MIN_X <= final(cannon).unwrap().transform.x
            <= CANNON_MAX_X,
{
    if let Some(c) = cannon {
        let sum = sum_directions(events);
        let target: i128 = c.transform.x as i128 + sum * (CANNON_SPEED as i128);
        let x: i64 = if target < CANNON_MIN_X as i128 {
            CANNON_MIN_X
        } else if target > CANNON_MAX_X as i128 {
            CANNON_MAX_X
        } else {
            target as i64
        };
        c.transform.x = x;
    }
}

/// The cannon stands on its row, within its bounds.
pub open spec fn cannon_wf(cannon: Option<CannonBundle>) -> bool {
    cannon matches Some(c) ==> {
        &&& c.transform.y == CANNON_Y
        &&& CANNON_MIN_X <= c.transform.x <= CANNON_MAX_X
    }
}

/// Whether a frame's fire requests spawn a laser: there must be a cannon,
/// no laser in flight, and at least one request.
pub open spec fn fires(
    lasers: Seq<LaserBeamBundle>,
    cannon: Option<CannonBundle>,
    fired: Seq<Fired>,
) -> bool {
    lasers.len() == 0 && cannon.is_some() && fired.len() > 0
}

/// Spawns a laser above the cannon on a fire request when none is in
/// flight; the requests of this frame are consumed either way. Tells
/// whether the shot sound should play.
pub fn fire_laser(
    lasers: &mut Vec<LaserBeamBundle>,
    cannon: &Option<CannonBundle>,
    fired: &mut Vec<Fired>,
) -> (shot: bool)
    requires
        cannon_wf(*cannon),
    ensures
        shot == fires(old(lasers)@, *cannon, old(fired)@),
        shot ==> final(lasers)@ == seq![LaserBeamBundle::new_spec(cannon.unwrap().transform)],
        !shot ==> final(lasers)@ == old(lasers)@,
        final(fired)@.len() == 0,
{
    if lasers.len() > 0 {
        fired.clear();
        return false;
    }
    match cannon {
        None => {
            fired.clear();
            false
        },
        Some(c) => {
            if fired.len() > 0 {
                fired.clear();
                lasers.push(LaserBeamBundle::new(c.transform.x, c.transform.y));
                assert(lasers@ =~= seq![LaserBeamBundle::new_spec(c.transform)]);
                true
            } else {
                false
            }
        },
    }
}

/// A laser one frame further up.
pub open spec fn laser_risen(l: LaserBeamBundle) -> LaserBeamBundle {
    LaserBeamBundle {
        transform: Transform { x: l.transform.x, y: (l.transform.y + LASER_SPEED) as i64 },
        ..l
    }
}

pub open spec fn laser_in_field(l: LaserBeamBundle) -> bool {
    l.transform.y < TOP_WALL
}

/// Raises each laser by eight units and removes those that reach the upper
/// edge.
#[verifier::loop_isolation(false)]
pub fn move_laser_beam(lasers: &mut Vec<LaserBeamBundle>)
    requires
        forall|i: int|
            0 <= i < old(lasers)@.len() ==> #[trigger] old(lasers)@[i].transform.y <= i64::MAX
                - LASER_SPEED,
    ensures
        final(lasers)@ == old(lasers)@.map_values(|l: LaserBeamBundle| laser_risen(l)).filter(
            |l: LaserBeamBundle| laser_in_field(l),
        ),
{
    let ghost f = |l: LaserBeamBundle| laser_risen(l);
    let ghost p = |l: LaserBeamBundle| laser_in_field(l);
    let mut kept: Vec<LaserBeamBundle> = Vec::new();
    let n = lasers.len();
    for i in 0..n
        invariant
            n == lasers@.len(),
            lasers@ == old(lasers)@,
            forall|k: int|
                0 <= k < lasers@.len() ==> #[trigger] lasers@[k].transform.y <= i64::MAX
                    - LASER_SPEED,
            kept@ == lasers@.subrange(0, i as int).map_values(f).filter(p),
    {
        proof {
            lemma_map_filter_step(lasers@, i as int, f, p);
        }
        let mut l = lasers[i];
        l.transform.y = l.transform.y + LASER_SPEED;
        assert(l == f(lasers@[i as int]));
        if l.transform.y < TOP_WALL {
            kept.push(l);
        }
    }
    assert(lasers@.subrange(0, n as int) =~= lasers@);
    *lasers = kept;
}

/// A UFO one frame further along its path.
pub open spec fn ufo_moved(u: UfoBundle) -> UfoBundle {
    UfoBundle {
        transform: Transform {
            x: (u.transform.x + UFO_SPEED * u.direction.0) as i64,
            y: u.transform.y,
        },
        ..u
    }
}

/// A UFO stays until it is more than a sprite beyond either wall.
pub open spec fn ufo_in_flight(u: UfoBundle) -> bool {
    LEFT_WALL - SPRITE_SIZE <= u.transform.x <= RIGHT_WALL + SPRITE_SIZE
}

/// Moves each UFO one unit along its direction and removes those that
/// have left the field by more than a sprite.
#[verifier::loop_isolation(false)]
pub fn move_ufo(ufos: &mut Vec<UfoBundle>)
    requires
        forall|i: int|
            0 <= i < old(ufos)@.len() ==> {
                &&& -1 <= #[trigger] old(ufos)@[i].direction.0 <= 1
                &&& i64::MIN + 1 <= old(ufos)@[i].transform.x <= i64::MAX - 1
            },
    ensures
        final(ufos)@ == old(ufos)@.map_values(|u: UfoBundle| ufo_moved(u)).filter(
            |u: UfoBundle| ufo_in_flight(u),
        ),
{
    let ghost f = |u: UfoBundle| ufo_moved(u);
    let ghost p = |u: UfoBundle| ufo_in_flight(u);
    let mut kept: Vec<UfoBundle> = Vec::new();
    let n = ufos.len();
    for i in 0..n
        invariant
            n == ufos@.len(),
            ufos@ == old(ufos)@,
            forall|k: int|
                0 <= k < ufos@.len() ==> {
                    &&& -1 <= #[trigger] ufos@[k].direction.0 <= 1
                    &&& i64::MIN + 1 <= ufos@[k].transform.x <= i64::MAX - 1
                },
            kept@ == ufos@.subrange(0, i as int).map_values(f).filter(p),
    {
        proof {
            lemma_map_filter_step(ufos@, i as int, f, p);
        }
        let mut u = ufos[i];
        u.transform.x = u.transform.x + UFO_SPEED * u.direction.0;
        assert(u == f(ufos@[i as int]));
        if LEFT_WALL - SPRITE_SIZE <= u.transform.x && u.transform.x <= RIGHT_WALL + SPRITE_SIZE {
            kept.push(u);
        }
    }
    assert(ufos@.subrange(0, n as int) =~= ufos@);
    *ufos = kept;
}

/// A bomb one frame further down.
pub open spec fn bomb_fallen(b: BombBundle) -> BombBundle {
    BombBundle {
        transform: Transform { x: b.transform.x, y: (b.transform.y - BOMB_SPEED) as i64 },
        ..b
    }
}

pub open spec fn bomb_in_field(b: BombBundle) -> bool {
    b.transform.y > BOTTOM_WALL
}

/// Lowers each bomb by one unit and removes those that reach the lower edge.
#[verifier::loop_isolation(false)]
pub fn move_bomb(bombs: &mut Vec<BombBundle>)
    requires
        forall|i: int|
            0 <= i < old(bombs)@.len() ==> #[trigger] old(bombs)@[i].transform.y >= i64::MIN
                + BOMB_SPEED,
    ensures
        final(bombs)@ == old(bombs)@.map_values(|b: BombBundle| bomb_fallen(b)).filter(
            |b: BombBundle| bomb_in_field(b),
        ),
{
    let ghost f = |b: BombBundle| bomb_fallen(b);
    let ghost p = |b: BombBundle| bomb_in_field(b);
    let mut kept: Vec<BombBundle> = Vec::new();
    let n = bombs.len();
    for i in 0..n
        invariant
            n == bombs@.len(),
            bombs@ == old(bombs)@,
            forall|k: int|
                0 <= k < bombs@.len() ==> #[trigger] bombs@[k].transform.y >= i64::MIN
                    + BOMB_SPEED,
            kept@ == bombs@.subrange(0, i as int).map_values(f).filter(p),
    {
        proof {
            lemma_map_filter_step(bombs@, i as int, f, p);
        }
        let mut b = bombs[i];
        b.transform.y = b.transform.y - BOMB_SPEED;
        assert(b == f(bombs@[i as int]));
        if b.transform.y > BOTTOM_WALL {
            kept.push(b);
        }
    }
    assert(bombs@.subrange(0, n as int) =~= bombs@);
    *bombs = kept;
}

/// Whether the laser's box meets an invader's.
pub open spec fn laser_hits_enemy(l: LaserBeamBundle, e: EnemyBundle) -> bool {
    overlaps(l.transform, l.size, e.transform, e.size)
}

/// Whether the laser's box meets a UFO's.
pub open spec fn laser_hits_ufo(l: LaserBeamBundle, u: UfoBundle) -> bool {
    overlaps(l.transform, l.size, u.transform, u.size)
}

/// `i` is the first invader, in insertion order, that the laser meets.
pub open spec fn is_first_enemy_hit(l: LaserBeamBundle, s: Seq<EnemyBundle>, i: int) -> bool {
    &&& 0 <= i < s.len()
    &&& laser_hits_enemy(l, s[i])
    &&& forall|j: int| 0 <= j < i ==> !laser_hits_enemy(l, #[trigger] s[j])
}

/// `i` is the first UFO, in insertion order, that the laser meets.
pub open spec fn is_first_ufo_hit(l: LaserBeamBundle, s: Seq<UfoBundle>, i: int) -> bool {
    &&& 0 <= i < s.len()
    &&& laser_hits_ufo(l, s[i])
    &&& forall|j: int| 0 <= j < i ==> !laser_hits_ufo(l, #[trigger] s[j])
}

pub open spec fn misses_enemies(l: LaserBeamBundle, s: Seq<EnemyBundle>) -> bool {
    forall|j: int| 0 <= j < s.len() ==> !laser_hits_enemy(l, #[trigger] s[j])
}

pub open spec fn misses_ufos(l: LaserBeamBundle, s: Seq<UfoBundle>) -> bool {
    forall|j: int| 0 <= j < s.len() ==> !laser_hits_ufo(l, #[trigger] s[j])
}

/// Every target carries a bounty between zero and the largest one.
pub open spec fn bounties_bounded(enemies: Seq<EnemyBundle>, ufos: Seq<UfoBundle>) -> bool {
    &&& forall|i: int|
        0 <= i < enemies.len() ==> 0 <= #[trigger] enemies[i].hitpoints.0 <= MAX_BOUNTY
    &&& forall|i: int| 0 <= i < ufos.len() ==> 0 <= #[trigger] ufos[i].hitpoints.0 <= MAX_BOUNTY
}

/// What resolving the laser does. Without a laser nothing changes. With
/// one laser `l`: the first invader it meets, in insertion order, is removed
/// and its bounty credited; failing that, the first UFO it meets; either way
/// the laser goes and `hit` holds. When it meets nothing, nothing changes.
pub open spec fn laser_hit_outcome(
    score: int,
    lasers: Seq<LaserBeamBundle>,
    enemies: Seq<EnemyBundle>,
    ufos: Seq<UfoBundle>,
    new_score: int,
    new_lasers: Seq<LaserBeamBundle>,
    new_enemies: Seq<EnemyBundle>,
    new_ufos: Seq<UfoBundle>,
    hit: bool,
) -> bool {
    let unchanged = {
        &&& !hit
        &&& new_score == score
        &&& new_lasers == lasers
        &&& new_enemies == enemies
        &&& new_ufos == ufos
    };
    &&& lasers.len() == 0 ==> unchanged
    &&& lasers.len() == 1 ==> {
        let l = lasers[0];
        &&& forall|i: int|
            #[trigger] is_first_enemy_hit(l, enemies, i) ==> {
                &&& hit
                &&& new_score == score + enemies[i].hitpoints.0
                &&& new_lasers.len() == 0
                &&& new_enemies == enemies.remove(i)
                &&& new_ufos == ufos
            }
        &&& misses_enemies(l, enemies) ==> forall|i: int|
            #[trigger] is_first_ufo_hit(l, ufos, i) ==> {
                &&& hit
                &&& new_score == score + ufos[i].hitpoints.0
                &&& new_lasers.len() == 0
                &&& new_enemies == enemies
                &&& new_ufos == ufos.remove(i)
            }
        &&& misses_enemies(l, enemies) && misses_ufos(l, ufos) ==> unchanged
    }
}

fn first_enemy_hit(l: &LaserBeamBundle, enemies: &Vec<EnemyBundle>) -> (r: Option<usize>)
    ensures
        match r {
            Some(i) => is_first_enemy_hit(*l, enemies@, i as int),
            None => misses_enemies(*l, enemies@),
        },
{
    let n = enemies.len();
    for i in 0..n
        invariant
            n == enemies@.len(),
            forall|j: int| 0 <= j < i ==> !laser_hits_enemy(*l, #[trigger] enemies@[j]),
    {
        if intersects(&l.transform, &l.size, &enemies[i].transform, &enemies[i].size) {
            return Some(i);
        }
    }
    None
}

fn first_ufo_hit(l: &LaserBeamBundle, ufos: &Vec<UfoBundle>) -> (r: Option<usize>)
    ensures
        match r {
            Some(i) => is_first_ufo_hit(*l, ufos@, i as int),
            None => misses_ufos(*l, ufos@),
        },
{
    let n = ufos.len();
    for i in 0..n
        invariant
            n == ufos@.len(),
            forall|j: int| 0 <= j < i ==> !laser_hits_ufo(*l, #[trigger] ufos@[j]),
    {
        if intersects(&l.transform, &l.size, &ufos[i].transform, &ufos[i].size) {
            return Some(i);
        }
    }
    None
}

/// Resolves the laser against the targets: invaders first, then UFOs, each
/// in insertion order. On the first target met, the target and the laser
/// leave the world and the player is credited the target's bounty.
pub fn detect_laser_hit(
    player: &mut Player,
    lasers: &mut Vec<LaserBeamBundle>,
    enemies: &mut Vec<EnemyBundle>,
    ufos: &mut Vec<UfoBundle>,
) -> (hit: Option<HitEvent>)
    requires
        old(lasers)@.len() <= 1,
        old(player).score <= i32::MAX - MAX_BOUNTY,
        bounties_bounded(old(enemies)@, old(ufos)@),
    ensures
        final(player).lifes == old(player).lifes,
        final(player).score >= old(player).score,
        final(lasers)@.len() == 0 || final(lasers)@ == old(lasers)@,
        final(enemies)@ == old(enemies)@ || exists|i: int|
            0 <= i < old(enemies)@.len() && final(enemies)@ == old(enemies)@.remove(i),
        final(ufos)@ == old(ufos)@ || exists|i: int|
            0 <= i < old(ufos)@.len() && final(ufos)@ == old(ufos)@.remove(i),
        hit.is_some() == (old(lasers)@.len() == 1 && !(misses_enemies(old(lasers)@[0], old(enemies)@)
            && misses_ufos(old(lasers)@[0], old(ufos)@))),
        laser_hit_outcome(
            old(player).score as int,
            old(lasers)@,
            old(enemies)@,
            old(ufos)@,
            final(player).score as int,
            final(lasers)@,
            final(enemies)@,
            final(ufos)@,
            hit.is_some(),
        ),
{
    if lasers.len() == 0 {
        return None;
    }
    let l = lasers[0];
    match first_enemy_hit(&l, enemies) {
        Some(i) => {
            let target = enemies.remove(i);
            player.add_to_score(target.hitpoints.0);
            lasers.clear();
            Some(HitEvent)
        },
        None => match first_ufo_hit(&l, ufos) {
            Some(i) => {
                let target = ufos.remove(i);
                player.add_to_score(target.hitpoints.0);
                lasers.clear();
                Some(HitEvent)
            },
            None => None,
        },
    }
}

/// Consumes this frame's hit events; tells whether the invader-killed sound
/// should play.
pub fn play_enemy_hit_sound(hits: &mut Vec<HitEvent>) -> (play: bool)
    ensures
        play == (old(hits)@.len() > 0),
        final(hits)@.len() == 0,
{
    let play = hits.len() > 0;
    hits.clear();
    play
}

/// Whether a bomb's 10 by 30 box meets the cannon's.
pub open spec fn bomb_hits_cannon(b: BombBundle, c: CannonBundle) -> bool {
    overlaps(b.transform, b.size, c.transform, c.size)
}

pub open spec fn bomb_misses_cannon(b: BombBundle, c: CannonBundle) -> bool {
    !bomb_hits_cannon(b, c)
}

/// Lives left after `k` hits, never below zero.
pub open spec fn lives_after_hits(lifes: int, k: int) -> int {
    if lifes - k < 0 {
        0
    } else {
        lifes - k
    }
}

/// Removes every bomb that meets the cannon; each one costs the player a
/// life and yields a player-hit event. Without a cannon nothing happens.
#[verifier::loop_isolation(false)]
pub fn detect_bomb_hit(
    player: &mut Player,
    bombs: &mut Vec<BombBundle>,
    cannon: &Option<CannonBundle>,
) -> (events: Vec<PlayerHitEvent>)
    requires
        old(player).wf(),
    ensures
        final(player).score == old(player).score,
        final(player).wf(),
        match *cannon {
            None => {
                &&& events@.len() == 0
                &&& *final(player) == *old(player)
                &&& final(bombs)@ == old(bombs)@
            },
            Some(c) => {
                &&& final(bombs)@ == old(bombs)@.filter(|b: BombBundle| bomb_misses_cannon(b, c))
                &&& events@.len() == old(bombs)@.len() - final(bombs)@.len()
                &&& final(player).lifes == lives_after_hits(
                    old(player).lifes as int,
                    events@.len() as int,
                )
            },
        },
{
    let mut events: Vec<PlayerHitEvent> = Vec::new();
    match cannon {
        None => events,
        Some(c) => {
            let ghost id = |b: BombBundle| b;
            let ghost p = |b: BombBundle| bomb_misses_cannon(b, *c);
            let mut kept: Vec<BombBundle> = Vec::new();
            let n = bombs.len();
            for i in 0..n
                invariant
                    n == bombs@.len(),
                    bombs@ == old(bombs)@,
                    kept@ == bombs@.subrange(0, i as int).map_values(id).filter(p),
                    kept@.len() + events@.len() == i,
                    player.score == old(player).score,
                    player.wf(),
                    player.lifes == lives_after_hits(old(player).lifes as int, events@.len() as int),
            {
                proof {
                    lemma_map_filter_step(bombs@, i as int, id, p);
                }
                let b = bombs[i];
                if intersects(&b.transform, &b.size, &c.transform, &c.size) {
                    player.kill();
                    events.push(PlayerHitEvent);
                } else {
                    kept.push(b);
                }
            }
            assert(bombs@.subrange(0, n as int) =~= bombs@);
            assert(bombs@.map_values(id) =~= bombs@);
            *bombs = kept;
            events
        },
    }
}

/// Writes the lives left into the lives readout, if there is one.
pub fn update_lifes_ui(player: &Player, ui: &mut Option<LifesUI>)
    ensures
        final(ui).is_some() == old(ui).is_some(),
        final(ui).is_some() ==> final(ui).unwrap().text@ == signed_decimal(player.lifes as int),
{
    if let Some(u) = ui {
        u.text = player.lifes_left();
    }
}

/// Writes the score into the score readout, if there is one.
pub fn update_score_ui(player: &Player, ui: &mut Option<ScoreUI>)
    ensures
        final(ui).is_some() == old(ui).is_some(),
        final(ui).is_some() ==> final(ui).unwrap().text@ == signed_decimal(player.score as int),
{
    if let Some(u) = ui {
        u.text = player.score();
    }
}

/// Starts the repeating ten-second UFO spawn timer, replacing any other.
pub fn setup_ufo_timer(timer: &mut Option<UfoSpawnTimer>)
    ensures
        *final(timer) == Some(UfoSpawnTimer { duration_ms: UFO_SPAWN_PERIOD_MS, elapsed_ms: 0 }),
{
    *timer = Some(UfoSpawnTimer::new(UFO_SPAWN_PERIOD_MS));
}

} // verus!
