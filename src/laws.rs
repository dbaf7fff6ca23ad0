use vstd::prelude::*;

use crate::components::{BombBundle, CannonBundle, EnemyBundle, LaserBeamBundle, UfoBundle};
use crate::formation::swept;
use crate::systems::{
    bomb_fallen, bomb_in_field, bomb_misses_cannon, is_first_enemy_hit, laser_hit_outcome,
    is_first_ufo_hit, laser_hits_enemy, laser_hits_ufo, laser_in_field, laser_risen,
    misses_enemies, misses_ufos,
};

verus! {

/// `b` is `a` with every invader moved `d` to the right and nothing else
/// changed.
pub open spec fn shifted(a: Seq<EnemyBundle>, b: Seq<EnemyBundle>, d: int) -> bool {
    &&& a.len() == b.len()
    &&& forall|i: int|
        0 <= i < a.len() ==> {
            &&& #[trigger] b[i].transform.x == a[i].transform.x + d
            &&& b[i].transform.y == a[i].transform.y
            &&& b[i].marker == a[i].marker
            &&& b[i].position == a[i].position
            &&& b[i].size == a[i].size
            &&& b[i].hitpoints == a[i].hitpoints
        }
}

/// A step of the sweep that stays within `i64` moves every invader by
/// exactly that step.
pub proof fn lemma_sweep_is_shift(s: Seq<EnemyBundle>, dx: int)
    requires
        forall|i: int|
            0 <= i < s.len() ==> i64::MIN <= #[trigger] s[i].transform.x + dx <= i64::MAX,
    ensures
        shifted(s, s.map_values(|e: EnemyBundle| swept(e, dx)), dx),
{
}

/// Two shifts in a row are one shift by their sum.
pub proof fn lemma_shift_compose(
    a: Seq<EnemyBundle>,
    b: Seq<EnemyBundle>,
    c: Seq<EnemyBundle>,
    d1: int,
    d2: int,
)
    requires
        shifted(a, b, d1),
        shifted(b, c, d2),
    ensures
        shifted(a, c, d1 + d2),
{
    assert forall|i: int| 0 <= i < a.len() implies #[trigger] c[i].transform.x == a[i].transform.x
        + d1 + d2 by {
        assert(b[i].transform.x == a[i].transform.x + d1);
        assert(c[i].transform.x == b[i].transform.x + d2);
    }
}

proof fn lemma_sweep_prefix(states: Seq<Seq<EnemyBundle>>, n: nat, m: nat, step: int, k: nat)
    requires
        states.len() == n + m + 1,
        k <= n + m,
        forall|j: int| 0 <= j < n ==> shifted(#[trigger] states[j], states[j + 1], step),
        forall|j: int| n <= j < n + m ==> shifted(#[trigger] states[j], states[j + 1], -step),
    ensures
        shifted(
            states[0],
            states[k as int],
            step * (if k <= n {
                k as int
            } else {
                n - (k - n)
            }),
        ),
    decreases k,
{
    if k == 0 {
        assert(shifted(states[0], states[0], 0));
    } else {
        let j = (k - 1) as nat;
        lemma_sweep_prefix(states, n, m, step, j);
        if k <= n {
            assert(shifted(states[j as int], states[k as int], step));
            lemma_shift_compose(states[0], states[j as int], states[k as int], step * j, step);
            assert(step * j + step == step * k) by (nonlinear_arith)
                requires
                    j + 1 == k,
            ;
        } else {
            assert(shifted(states[j as int], states[k as int], -step));
            let before = if j <= n {
                j as int
            } else {
                n - (j - n)
            };
            lemma_shift_compose(
                states[0],
                states[j as int],
                states[k as int],
                step * before,
                -step,
            );
            assert(step * before - step == step * (n - (k - n))) by (nonlinear_arith)
                requires
                    before == n - (k - 1 - n) || (k - 1 == n && before == n),
            ;
        }
    }
}

/// A sweep of `n` pure steps one way followed by `m` pure steps back (the
/// direction reversed) leaves every invader offset by `step * (n - m)`
/// from where it began, in the same column order.
pub proof fn lemma_sweep_round_trip(states: Seq<Seq<EnemyBundle>>, n: nat, m: nat, step: int)
    requires
        states.len() == n + m + 1,
        forall|j: int| 0 <= j < n ==> shifted(#[trigger] states[j], states[j + 1], step),
        forall|j: int| n <= j < n + m ==> shifted(#[trigger] states[j], states[j + 1], -step),
    ensures
        shifted(states[0], states[(n + m) as int], step * (n - m)),
{
    lemma_sweep_prefix(states, n, m, step, n + m);
    if m == 0 {
        assert(step * (n - m) == step * n);
    }
}

/// A laser leaves the world on its own only at the upper edge: every laser
/// that is still below it after rising is kept, in order.
pub proof fn lemma_laser_leaves_only_at_top(old_lasers: Seq<LaserBeamBundle>, i: int)
    requires
        0 <= i < old_lasers.len(),
        laser_in_field(laser_risen(old_lasers[i])),
    ensures
        old_lasers.map_values(|l: LaserBeamBundle| laser_risen(l)).filter(
            |l: LaserBeamBundle| laser_in_field(l),
        ).contains(laser_risen(old_lasers[i])),
{
    let m = old_lasers.map_values(|l: LaserBeamBundle| laser_risen(l));
    assert(m[i] == laser_risen(old_lasers[i]));
    m.lemma_filter_contains(|l: LaserBeamBundle| laser_in_field(l), i);
}

/// A bomb leaves the world only at the lower edge or on the cannon: every
/// bomb still above the edge after falling is kept by the fall, and every
/// bomb that misses the cannon is kept by the collision check.
pub proof fn lemma_bomb_leaves_only_at_floor_or_cannon(
    old_bombs: Seq<BombBundle>,
    cannon: CannonBundle,
    i: int,
)
    requires
        0 <= i < old_bombs.len(),
    ensures
        bomb_in_field(bomb_fallen(old_bombs[i])) ==> old_bombs.map_values(
            |b: BombBundle| bomb_fallen(b),
        ).filter(|b: BombBundle| bomb_in_field(b)).contains(bomb_fallen(old_bombs[i])),
        bomb_misses_cannon(old_bombs[i], cannon) ==> old_bombs.filter(
            |b: BombBundle| bomb_misses_cannon(b, cannon),
        ).contains(old_bombs[i]),
{
    let m = old_bombs.map_values(|b: BombBundle| bomb_fallen(b));
    assert(m[i] == bomb_fallen(old_bombs[i]));
    if bomb_in_field(bomb_fallen(old_bombs[i])) {
        m.lemma_filter_contains(|b: BombBundle| bomb_in_field(b), i);
    }
    if bomb_misses_cannon(old_bombs[i], cannon) {
        old_bombs.lemma_filter_contains(|b: BombBundle| bomb_misses_cannon(b, cannon), i);
    }
}

/// When the laser meets some invader, there is a first one it meets.
pub proof fn lemma_first_enemy_hit_exists(l: LaserBeamBundle, s: Seq<EnemyBundle>, j: int)
    requires
        0 <= j < s.len(),
        laser_hits_enemy(l, s[j]),
    ensures
        exists|i: int| #[trigger] is_first_enemy_hit(l, s, i),
    decreases j,
{
    if exists|k: int| 0 <= k < j && laser_hits_enemy(l, #[trigger] s[k]) {
        let k = choose|k: int| 0 <= k < j && laser_hits_enemy(l, #[trigger] s[k]);
        lemma_first_enemy_hit_exists(l, s, k);
    } else {
        assert(is_first_enemy_hit(l, s, j));
    }
}

/// When the laser meets some UFO, there is a first one it meets.
pub proof fn lemma_first_ufo_hit_exists(l: LaserBeamBundle, s: Seq<UfoBundle>, j: int)
    requires
        0 <= j < s.len(),
        laser_hits_ufo(l, s[j]),
    ensures
        exists|i: int| #[trigger] is_first_ufo_hit(l, s, i),
    decreases j,
{
    if exists|k: int| 0 <= k < j && laser_hits_ufo(l, #[trigger] s[k]) {
        let k = choose|k: int| 0 <= k < j && laser_hits_ufo(l, #[trigger] s[k]);
        lemma_first_ufo_hit_exists(l, s, k);
    } else {
        assert(is_first_ufo_hit(l, s, j));
    }
}

/// An invader leaves the world only through the laser: whenever resolving
/// the laser changes the invaders, there was a laser, and exactly the first
/// invader it met is gone.
pub proof fn lemma_invader_leaves_only_when_hit(
    score: int,
    lasers: Seq<LaserBeamBundle>,
    enemies: Seq<EnemyBundle>,
    ufos: Seq<UfoBundle>,
    new_score: int,
    new_lasers: Seq<LaserBeamBundle>,
    new_enemies: Seq<EnemyBundle>,
    new_ufos: Seq<UfoBundle>,
    hit: bool,
)
    requires
        lasers.len() <= 1,
        laser_hit_outcome(
            score,
            lasers,
            enemies,
            ufos,
            new_score,
            new_lasers,
            new_enemies,
            new_ufos,
            hit,
        ),
        new_enemies != enemies,
    ensures
        lasers.len() == 1,
        hit,
        new_lasers.len() == 0,
        exists|i: int|
            #[trigger] is_first_enemy_hit(lasers[0], enemies, i) && new_enemies == enemies.remove(i),
{
    let l = lasers[0];
    if misses_enemies(l, enemies) {
        if !misses_ufos(l, ufos) {
            let j = choose|j: int| 0 <= j < ufos.len() && laser_hits_ufo(l, #[trigger] ufos[j]);
            lemma_first_ufo_hit_exists(l, ufos, j);
            let i = choose|i: int| #[trigger] is_first_ufo_hit(l, ufos, i);
            assert(new_enemies == enemies);
        }
        assert(false);
    }
    let j = choose|j: int| 0 <= j < enemies.len() && laser_hits_enemy(l, #[trigger] enemies[j]);
    lemma_first_enemy_hit_exists(l, enemies, j);
    let i = choose|i: int| #[trigger] is_first_enemy_hit(l, enemies, i);
    assert(is_first_enemy_hit(l, enemies, i) && new_enemies == enemies.remove(i));
}

/// The laser leaves the world during collision resolution only on a hit.
pub proof fn lemma_laser_leaves_only_on_hit(
    score: int,
    lasers: Seq<LaserBeamBundle>,
    enemies: Seq<EnemyBundle>,
    ufos: Seq<UfoBundle>,
    new_score: int,
    new_lasers: Seq<LaserBeamBundle>,
    new_enemies: Seq<EnemyBundle>,
    new_ufos: Seq<UfoBundle>,
    hit: bool,
)
    requires
        lasers.len() <= 1,
        laser_hit_outcome(
            score,
            lasers,
            enemies,
            ufos,
            new_score,
            new_lasers,
            new_enemies,
            new_ufos,
            hit,
        ),
        new_lasers != lasers,
    ensures
        hit,
        new_lasers.len() == 0,
{
    let l = lasers[0];
    if !misses_enemies(l, enemies) {
        let j = choose|j: int| 0 <= j < enemies.len() && laser_hits_enemy(l, #[trigger] enemies[j]);
        lemma_first_enemy_hit_exists(l, enemies, j);
        let i = choose|i: int| #[trigger] is_first_enemy_hit(l, enemies, i);
    } else if !misses_ufos(l, ufos) {
        let j = choose|j: int| 0 <= j < ufos.len() && laser_hits_ufo(l, #[trigger] ufos[j]);
        lemma_first_ufo_hit_exists(l, ufos, j);
        let i = choose|i: int| #[trigger] is_first_ufo_hit(l, ufos, i);
    }
}

} // verus!
