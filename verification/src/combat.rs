//! Collision and combat resolution: the per-tick passes that damage the
//! player on contact, move and cull enemies, and resolve both sides'
//! bullets. Each executable pass is proved equal to a fold that states the
//! pass's rule one element at a time, in iteration order.

use vstd::prelude::*;
use crate::entities::{
    Bullet, Enemy, EnemyModel, Player,
    bullet_step, bullet_out_of_bounds, bullet_hits_enemy, bullet_hits_player,
    enemy_step, enemy_shoot, hurt_health, wf_bullet, wf_enemy,
};

verus! {

// ------------------------------------------- player-enemy contact damage

/// The player after every co-located enemy, in list order, has dealt its
/// collision damage once. Damage is not deduplicated: two enemies on the
/// player's cell both hit. Each application saturates at zero health.
pub open spec fn player_after_collisions(p: Player, es: Seq<EnemyModel>) -> Player
    decreases es.len(),
{
    if es.len() == 0 {
        p
    } else {
        let q = player_after_collisions(p, es.drop_last());
        let e = es.last();
        if e.position_x == p.position_x && e.position_y == p.position_y {
            Player { health: hurt_health(q.health, e.collision_damage), ..q }
        } else {
            q
        }
    }
}

/// Colliding only ever lowers health: every other field of the player is
/// kept, so the cells the fold compares against stay those of `p`.
pub proof fn lemma_collisions_only_health(p: Player, es: Seq<EnemyModel>)
    ensures
        player_after_collisions(p, es) == (Player {
            health: player_after_collisions(p, es).health,
            ..p
        }),
    decreases es.len(),
{
    if es.len() > 0 {
        lemma_collisions_only_health(p, es.drop_last());
    }
}

/// For every enemy standing on the player's exact cell, apply that enemy's
/// collision damage to the player, once per enemy.
#[verifier::loop_isolation(false)]
pub fn apply_enemy_collisions(player: &mut Player, enemies: &Vec<Enemy>)
    ensures
        *final(player) == player_after_collisions(
            *old(player),
            enemies@.map_values(|e: Enemy| e@),
        ),
{
    let ghost es = enemies@.map_values(|e: Enemy| e@);
    let mut i: usize = 0;
    while i < enemies.len()
        invariant
            i <= enemies.len(),
            *player == player_after_collisions(*old(player), es.take(i as int)),
        decreases enemies.len() - i,
    {
        proof {
            lemma_collisions_only_health(*old(player), es.take(i as int));
            assert(es.take(i as int + 1).drop_last() =~= es.take(i as int));
        }
        let enemy = &enemies[i];
        if player.position_x == enemy.position_x && player.position_y == enemy.position_y {
            let damage = enemy.collision_damage;
            player.hurt(damage);
        }
        i += 1;
    }
    proof {
        assert(es.take(enemies@.len() as int) =~= es);
    }
}

// ------------------------------------------------- enemy movement & cull

/// The enemy list after a movement pass: every enemy advances one step
/// (bouncing off walls), and those whose health has reached zero are
/// dropped, keeping list order.
pub open spec fn move_cull_enemies(es: Seq<EnemyModel>) -> Seq<EnemyModel>
    decreases es.len(),
{
    if es.len() == 0 {
        Seq::empty()
    } else {
        let prev = move_cull_enemies(es.drop_last());
        let e = enemy_step(es.last());
        if e.health > 0 {
            prev.push(e)
        } else {
            prev
        }
    }
}

/// Move every enemy one step and drop the dead ones.
#[verifier::loop_isolation(false)]
pub fn move_and_cull_enemies(enemies: &mut Vec<Enemy>)
    requires
        forall|i: int| 0 <= i < old(enemies)@.len() ==> wf_enemy(#[trigger] old(enemies)@[i]@),
    ensures
        final(enemies)@.map_values(|e: Enemy| e@) == move_cull_enemies(
            old(enemies)@.map_values(|e: Enemy| e@),
        ),
        forall|i: int| 0 <= i < final(enemies)@.len() ==> wf_enemy(#[trigger] final(enemies)@[i]@),
        final(enemies)@.len() <= old(enemies)@.len(),
{
    let ghost orig = old(enemies)@.map_values(|e: Enemy| e@);
    let ghost total = old(enemies)@.len() as int;
    let mut out: Vec<Enemy> = Vec::new();
    while enemies.len() > 0
        invariant
            enemies@.len() <= total,
            enemies@ == old(enemies)@.skip(total - enemies@.len()),
            out@.map_values(|e: Enemy| e@) == move_cull_enemies(orig.take(total - enemies@.len())),
            forall|i: int| 0 <= i < out@.len() ==> wf_enemy(#[trigger] out@[i]@),
            out@.len() <= total - enemies@.len(),
        decreases enemies.len(),
    {
        let ghost k = total - enemies@.len();
        let mut e = enemies.remove(0);
        proof {
            assert(e == old(enemies)@[k]);
            assert(enemies@ =~= old(enemies)@.skip(k + 1));
            assert(orig.take(k + 1).drop_last() =~= orig.take(k));
            assert(orig.take(k + 1).last() == e@);
        }
        let ghost out_before = out@.map_values(|x: Enemy| x@);
        e.move_enemy();
        if e.health > 0 {
            out.push(e);
            proof {
                assert(out@.map_values(|x: Enemy| x@) =~= out_before.push(e@));
            }
        }
    }
    proof {
        assert(orig.take(total) =~= orig);
    }
    core::mem::swap(enemies, &mut out);
}

// --------------------------------------------------- player bullet pass

/// Index of the first enemy the bullet hits, or the list's length when it
/// hits none.
pub open spec fn first_hit_index(es: Seq<EnemyModel>, b: Bullet) -> int
    decreases es.len(),
{
    if es.len() == 0 {
        0
    } else if bullet_hits_enemy(b, es.first()) {
        0
    } else {
        1 + first_hit_index(es.drop_first(), b)
    }
}

/// `first_hit_index` names the first hit: a prefix of misses followed by a
/// hit at `j` pins the index to `j`.
pub proof fn lemma_first_hit_at(es: Seq<EnemyModel>, b: Bullet, j: int)
    requires
        0 <= j < es.len(),
        forall|k: int| 0 <= k < j ==> !bullet_hits_enemy(b, #[trigger] es[k]),
        bullet_hits_enemy(b, es[j]),
    ensures
        first_hit_index(es, b) == j,
    decreases j,
{
    if j > 0 {
        assert(forall|k: int| 0 <= k < j - 1 ==> !bullet_hits_enemy(
            b,
            #[trigger] es.drop_first()[k],
        ));
        lemma_first_hit_at(es.drop_first(), b, j - 1);
    }
}

/// When the bullet hits no enemy at all, `first_hit_index` is the length.
pub proof fn lemma_no_hit(es: Seq<EnemyModel>, b: Bullet)
    requires
        forall|k: int| 0 <= k < es.len() ==> !bullet_hits_enemy(b, #[trigger] es[k]),
    ensures
        first_hit_index(es, b) == es.len(),
    decreases es.len(),
{
    if es.len() > 0 {
        assert(forall|k: int| 0 <= k < es.len() - 1 ==> !bullet_hits_enemy(
            b,
            #[trigger] es.drop_first()[k],
        ));
        lemma_no_hit(es.drop_first(), b);
    }
}

/// The first-hit index always lies between zero and the list's length.
pub proof fn lemma_first_hit_index_bounds(es: Seq<EnemyModel>, b: Bullet)
    ensures
        0 <= first_hit_index(es, b) <= es.len(),
    decreases es.len(),
{
    if es.len() > 0 && !bullet_hits_enemy(b, es.first()) {
        lemma_first_hit_index_bounds(es.drop_first(), b);
    }
}

/// The enemy after a bullet's damage: health drops, saturating at zero.
pub open spec fn damaged_enemy(e: EnemyModel, damage: u32) -> EnemyModel {
    EnemyModel { health: hurt_health(e.health, damage), ..e }
}

/// Outcome of resolving the player's bullets, in list order: each bullet
/// moves one step; a bullet that left the field is dropped; otherwise it
/// damages the first enemy sharing its cell (at most one enemy per bullet)
/// and is consumed; a bullet that hits nothing is kept.
pub open spec fn resolve_player_bullets_spec(bs: Seq<Bullet>, es: Seq<EnemyModel>) -> (
    Seq<Bullet>,
    Seq<EnemyModel>,
)
    decreases bs.len(),
{
    if bs.len() == 0 {
        (Seq::empty(), es)
    } else {
        let prev = resolve_player_bullets_spec(bs.drop_last(), es);
        let b = bullet_step(bs.last());
        if bullet_out_of_bounds(b) {
            prev
        } else {
            let j = first_hit_index(prev.1, b);
            if j < prev.1.len() {
                (prev.0, prev.1.update(j, damaged_enemy(prev.1[j], b.damage)))
            } else {
                (prev.0.push(b), prev.1)
            }
        }
    }
}

/// Move every player bullet, drop the out-of-bounds ones, and let each
/// surviving bullet damage the first enemy it shares a cell with; a bullet
/// that hits is consumed.
#[verifier::loop_isolation(false)]
pub fn resolve_player_bullets(bullets: &mut Vec<Bullet>, enemies: &mut Vec<Enemy>)
    requires
        forall|i: int| 0 <= i < old(bullets)@.len() ==> wf_bullet(#[trigger] old(bullets)@[i])
            && !old(bullets)@[i].is_enemy_bullet,
        forall|i: int| 0 <= i < old(enemies)@.len() ==> wf_enemy(#[trigger] old(enemies)@[i]@),
    ensures
        final(bullets)@ == resolve_player_bullets_spec(
            old(bullets)@,
            old(enemies)@.map_values(|e: Enemy| e@),
        ).0,
        final(enemies)@.map_values(|e: Enemy| e@) == resolve_player_bullets_spec(
            old(bullets)@,
            old(enemies)@.map_values(|e: Enemy| e@),
        ).1,
        forall|i: int| 0 <= i < final(bullets)@.len() ==> wf_bullet(#[trigger] final(bullets)@[i])
            && !final(bullets)@[i].is_enemy_bullet,
        forall|i: int| 0 <= i < final(enemies)@.len() ==> wf_enemy(#[trigger] final(enemies)@[i]@),
        final(enemies)@.len() == old(enemies)@.len(),
        final(bullets)@.len() <= old(bullets)@.len(),
{
    let ghost bs0 = old(bullets)@;
    let ghost es0 = old(enemies)@.map_values(|e: Enemy| e@);
    let ghost total = old(bullets)@.len() as int;
    let mut kept: Vec<Bullet> = Vec::new();
    while bullets.len() > 0
        invariant
            bullets@.len() <= total,
            bullets@ == bs0.skip(total - bullets@.len()),
            kept@ == resolve_player_bullets_spec(bs0.take(total - bullets@.len()), es0).0,
            enemies@.map_values(|e: Enemy| e@) == resolve_player_bullets_spec(
                bs0.take(total - bullets@.len()),
                es0,
            ).1,
            forall|i: int| 0 <= i < kept@.len() ==> wf_bullet(#[trigger] kept@[i])
                && !kept@[i].is_enemy_bullet,
            forall|i: int| 0 <= i < enemies@.len() ==> wf_enemy(#[trigger] enemies@[i]@),
            enemies@.len() == es0.len(),
            kept@.len() <= total - bullets@.len(),
        decreases bullets.len(),
    {
        let ghost k = total - bullets@.len();
        let mut b = bullets.remove(0);
        proof {
            assert(b == bs0[k]);
            assert(bullets@ =~= bs0.skip(k + 1));
            assert(bs0.take(k + 1).drop_last() =~= bs0.take(k));
            assert(bs0.take(k + 1).last() == b);
        }
        b.move_bullet();
        if !b.is_out_of_bounds() {
            let ghost es_now = enemies@.map_values(|e: Enemy| e@);
            let mut hit = false;
            let mut j: usize = 0;
            while j < enemies.len() && !hit
                invariant
                    j <= es_now.len(),
                    enemies@.len() == es_now.len(),
                    !hit ==> enemies@.map_values(|e: Enemy| e@) == es_now,
                    !hit ==> forall|kk: int| 0 <= kk < j ==> !bullet_hits_enemy(
                        b,
                        #[trigger] es_now[kk],
                    ),
                    hit ==> first_hit_index(es_now, b) < es_now.len()
                        && enemies@.map_values(|e: Enemy| e@) == es_now.update(
                        first_hit_index(es_now, b),
                        damaged_enemy(es_now[first_hit_index(es_now, b)], b.damage),
                    ),
                    forall|i: int| 0 <= i < enemies@.len() ==> wf_enemy(#[trigger] enemies@[i]@),
                decreases enemies.len() - j + (if hit { 0int } else { 1int }),
            {
                if b.hit_enemy(&enemies[j]) {
                    let mut e = enemies.remove(j);
                    e.health = e.health.saturating_sub(b.damage);
                    enemies.insert(j, e);
                    proof {
                        lemma_first_hit_at(es_now, b, j as int);
                        assert(enemies@.map_values(|x: Enemy| x@) =~= es_now.update(
                            j as int,
                            damaged_enemy(es_now[j as int], b.damage),
                        ));
                    }
                    hit = true;
                } else {
                    j += 1;
                }
            }
            if !hit {
                proof {
                    lemma_no_hit(es_now, b);
                }
                kept.push(b);
            }
        }
        proof {
            assert(kept@ =~= resolve_player_bullets_spec(bs0.take(k + 1), es0).0);
            assert(enemies@.map_values(|e: Enemy| e@) =~= resolve_player_bullets_spec(
                bs0.take(k + 1),
                es0,
            ).1);
        }
    }
    proof {
        assert(bs0.take(total) =~= bs0);
    }
    core::mem::swap(bullets, &mut kept);
}

/// The bullet pass never moves an enemy: the enemy at `j` keeps its place
/// in the list and its cell; only health changes.
pub proof fn lemma_player_bullets_keep_position_at(bs: Seq<Bullet>, es: Seq<EnemyModel>, j: int)
    requires
        0 <= j < es.len(),
    ensures
        resolve_player_bullets_spec(bs, es).1.len() == es.len(),
        resolve_player_bullets_spec(bs, es).1[j].position_x == es[j].position_x,
        resolve_player_bullets_spec(bs, es).1[j].position_y == es[j].position_y,
    decreases bs.len(),
{
    if bs.len() > 0 {
        lemma_player_bullets_keep_position_at(bs.drop_last(), es, j);
        let prev = resolve_player_bullets_spec(bs.drop_last(), es);
        let b = bullet_step(bs.last());
        if !bullet_out_of_bounds(b) {
            lemma_first_hit_index_bounds(prev.1, b);
        }
    }
}

/// Which enemy a bullet hits first depends on the enemies' cells alone:
/// two lists that agree cell by cell give the same first hit.
pub proof fn lemma_first_hit_positions_only(es1: Seq<EnemyModel>, es2: Seq<EnemyModel>, b: Bullet)
    requires
        es1.len() == es2.len(),
        forall|j: int| 0 <= j < es1.len() ==> #[trigger] es1[j].position_x == es2[j].position_x
            && es1[j].position_y == es2[j].position_y,
    ensures
        first_hit_index(es1, b) == first_hit_index(es2, b),
    decreases es1.len(),
{
    if es1.len() > 0 {
        assert forall|j: int| 0 <= j < es1.drop_first().len()
            implies #[trigger] es1.drop_first()[j].position_x == es2.drop_first()[j].position_x
            && es1.drop_first()[j].position_y == es2.drop_first()[j].position_y by {
            assert(es1.drop_first()[j] == es1[j + 1]);
            assert(es2.drop_first()[j] == es2[j + 1]);
            assert(es1[j + 1].position_x == es2[j + 1].position_x);
        };
        lemma_first_hit_positions_only(es1.drop_first(), es2.drop_first(), b);
    }
}

/// The damages that land on the enemy at index `j` during one bullet pass,
/// in the order the bullets are resolved: each bullet moves one step, and
/// one still in bounds whose first co-located enemy is `j` lands there.
pub open spec fn damages_on(bs: Seq<Bullet>, es: Seq<EnemyModel>, j: int) -> Seq<u32>
    decreases bs.len(),
{
    if bs.len() == 0 {
        Seq::empty()
    } else {
        let prev = damages_on(bs.drop_last(), es, j);
        let b = bullet_step(bs.last());
        if !bullet_out_of_bounds(b) && first_hit_index(es, b) == j && j < es.len() {
            prev.push(b.damage)
        } else {
            prev
        }
    }
}

// ---------------------------------------------------- enemy bullet pass

/// Outcome of resolving one enemy's bullets against the player, in list
/// order: each bullet moves one step down; one that left the field is
/// dropped; one on the player's cell deals its damage (saturating) and is
/// consumed; the rest are kept.
pub open spec fn resolve_bullets_vs_player(bs: Seq<Bullet>, p: Player) -> (Seq<Bullet>, Player)
    decreases bs.len(),
{
    if bs.len() == 0 {
        (Seq::empty(), p)
    } else {
        let prev = resolve_bullets_vs_player(bs.drop_last(), p);
        let b = bullet_step(bs.last());
        if bullet_out_of_bounds(b) {
            prev
        } else if bullet_hits_player(b, prev.1) {
            (prev.0, Player { health: hurt_health(prev.1.health, b.damage), ..prev.1 })
        } else {
            (prev.0.push(b), prev.1)
        }
    }
}

/// Outcome of resolving every enemy's bullets against the player, enemy by
/// enemy in list order, threading the player's health through.
pub open spec fn resolve_enemy_bullets_spec(es: Seq<EnemyModel>, p: Player) -> (
    Seq<EnemyModel>,
    Player,
)
    decreases es.len(),
{
    if es.len() == 0 {
        (Seq::empty(), p)
    } else {
        let prev = resolve_enemy_bullets_spec(es.drop_last(), p);
        let one = resolve_bullets_vs_player(es.last().bullets, prev.1);
        (prev.0.push(EnemyModel { bullets: one.0, ..es.last() }), one.1)
    }
}

/// Resolving bullets against the player only ever lowers the player's
/// health; every other field is kept.
pub proof fn lemma_bullets_vs_player_only_health(bs: Seq<Bullet>, p: Player)
    ensures
        resolve_bullets_vs_player(bs, p).1 == (Player {
            health: resolve_bullets_vs_player(bs, p).1.health,
            ..p
        }),
    decreases bs.len(),
{
    if bs.len() > 0 {
        lemma_bullets_vs_player_only_health(bs.drop_last(), p);
    }
}

/// Resolving every enemy's bullets only ever lowers the player's health;
/// every other field is kept.
pub proof fn lemma_enemy_bullets_only_health(es: Seq<EnemyModel>, p: Player)
    ensures
        resolve_enemy_bullets_spec(es, p).1 == (Player {
            health: resolve_enemy_bullets_spec(es, p).1.health,
            ..p
        }),
    decreases es.len(),
{
    if es.len() > 0 {
        lemma_enemy_bullets_only_health(es.drop_last(), p);
        lemma_bullets_vs_player_only_health(
            es.last().bullets,
            resolve_enemy_bullets_spec(es.drop_last(), p).1,
        );
    }
}

/// Move one enemy's bullets, drop the out-of-bounds ones, and apply to the
/// player the damage of each bullet that lands on its cell.
#[verifier::loop_isolation(false)]
fn resolve_one_enemys_bullets(bullets: &mut Vec<Bullet>, player: &mut Player)
    requires
        forall|i: int| 0 <= i < old(bullets)@.len() ==> wf_bullet(#[trigger] old(bullets)@[i])
            && old(bullets)@[i].is_enemy_bullet,
    ensures
        final(bullets)@ == resolve_bullets_vs_player(old(bullets)@, *old(player)).0,
        *final(player) == resolve_bullets_vs_player(old(bullets)@, *old(player)).1,
        forall|i: int| 0 <= i < final(bullets)@.len() ==> wf_bullet(#[trigger] final(bullets)@[i])
            && final(bullets)@[i].is_enemy_bullet,
{
    let ghost bs0 = old(bullets)@;
    let ghost total = old(bullets)@.len() as int;
    let mut kept: Vec<Bullet> = Vec::new();
    while bullets.len() > 0
        invariant
            bullets@.len() <= total,
            bullets@ == bs0.skip(total - bullets@.len()),
            kept@ == resolve_bullets_vs_player(bs0.take(total - bullets@.len()), *old(player)).0,
            *player == resolve_bullets_vs_player(bs0.take(total - bullets@.len()), *old(player)).1,
            forall|i: int| 0 <= i < kept@.len() ==> wf_bullet(#[trigger] kept@[i])
                && kept@[i].is_enemy_bullet,
        decreases bullets.len(),
    {
        let ghost k = total - bullets@.len();
        let mut b = bullets.remove(0);
        proof {
            assert(b == bs0[k]);
            assert(bullets@ =~= bs0.skip(k + 1));
            assert(bs0.take(k + 1).drop_last() =~= bs0.take(k));
            assert(bs0.take(k + 1).last() == b);
            lemma_bullets_vs_player_only_health(bs0.take(k), *old(player));
        }
        b.move_bullet();
        if !b.is_out_of_bounds() {
            if b.hit_player(player) {
                player.hurt(b.damage);
            } else {
                kept.push(b);
            }
        }
    }
    proof {
        assert(bs0.take(total) =~= bs0);
    }
    core::mem::swap(bullets, &mut kept);
}

/// For each enemy in list order, resolve its fired bullets against the
/// player: move, drop the out-of-bounds, and land hits on the player.
#[verifier::loop_isolation(false)]
pub fn resolve_enemy_bullets(enemies: &mut Vec<Enemy>, player: &mut Player)
    requires
        forall|i: int| 0 <= i < old(enemies)@.len() ==> wf_enemy(#[trigger] old(enemies)@[i]@),
    ensures
        final(enemies)@.map_values(|e: Enemy| e@) == resolve_enemy_bullets_spec(
            old(enemies)@.map_values(|e: Enemy| e@),
            *old(player),
        ).0,
        *final(player) == resolve_enemy_bullets_spec(
            old(enemies)@.map_values(|e: Enemy| e@),
            *old(player),
        ).1,
        forall|i: int| 0 <= i < final(enemies)@.len() ==> wf_enemy(#[trigger] final(enemies)@[i]@),
        final(enemies)@.len() == old(enemies)@.len(),
{
    let ghost es0 = old(enemies)@.map_values(|e: Enemy| e@);
    let ghost total = old(enemies)@.len() as int;
    let mut out: Vec<Enemy> = Vec::new();
    while enemies.len() > 0
        invariant
            enemies@.len() <= total,
            enemies@ == old(enemies)@.skip(total - enemies@.len()),
            out@.map_values(|e: Enemy| e@) == resolve_enemy_bullets_spec(
                es0.take(total - enemies@.len()),
                *old(player),
            ).0,
            *player == resolve_enemy_bullets_spec(
                es0.take(total - enemies@.len()),
                *old(player),
            ).1,
            forall|i: int| 0 <= i < out@.len() ==> wf_enemy(#[trigger] out@[i]@),
            out@.len() == total - enemies@.len(),
        decreases enemies.len(),
    {
        let ghost k = total - enemies@.len();
        let mut e = enemies.remove(0);
        proof {
            assert(e == old(enemies)@[k]);
            assert(enemies@ =~= old(enemies)@.skip(k + 1));
            assert(es0.take(k + 1).drop_last() =~= es0.take(k));
            assert(es0.take(k + 1).last() == e@);
        }
        let ghost out_before = out@.map_values(|x: Enemy| x@);
        proof {
            assert(wf_enemy(e@));
            assert forall|i: int| 0 <= i < e.bullets@.len() implies wf_bullet(
                #[trigger] e.bullets@[i],
            ) && e.bullets@[i].is_enemy_bullet by {
                assert(e.bullets@[i] == e@.bullets[i]);
            };
        }
        resolve_one_enemys_bullets(&mut e.bullets, player);
        out.push(e);
        proof {
            assert(out@.map_values(|x: Enemy| x@) =~= out_before.push(e@));
        }
    }
    proof {
        assert(es0.take(total) =~= es0);
    }
    core::mem::swap(enemies, &mut out);
}

// --------------------------------------------------------- enemy firing

/// Let every enemy attempt a shot; only heavy ships actually fire,
/// appending a fresh hostile bullet to their own list.
#[verifier::loop_isolation(false)]
pub fn enemies_shoot(enemies: &mut Vec<Enemy>)
    requires
        forall|i: int| 0 <= i < old(enemies)@.len() ==> wf_enemy(#[trigger] old(enemies)@[i]@),
    ensures
        final(enemies)@.map_values(|e: Enemy| e@) == old(enemies)@.map_values(|e: Enemy| e@)
            .map_values(|e: EnemyModel| enemy_shoot(e)),
        forall|i: int| 0 <= i < final(enemies)@.len() ==> wf_enemy(#[trigger] final(enemies)@[i]@),
        final(enemies)@.len() == old(enemies)@.len(),
{
    let ghost es0 = old(enemies)@.map_values(|e: Enemy| e@);
    let ghost total = old(enemies)@.len() as int;
    let mut out: Vec<Enemy> = Vec::new();
    while enemies.len() > 0
        invariant
            enemies@.len() <= total,
            enemies@ == old(enemies)@.skip(total - enemies@.len()),
            out@.map_values(|e: Enemy| e@) == es0.take(total - enemies@.len()).map_values(
                |e: EnemyModel| enemy_shoot(e),
            ),
            forall|i: int| 0 <= i < out@.len() ==> wf_enemy(#[trigger] out@[i]@),
            out@.len() == total - enemies@.len(),
        decreases enemies.len(),
    {
        let ghost k = total - enemies@.len();
        let mut e = enemies.remove(0);
        proof {
            assert(e == old(enemies)@[k]);
            assert(enemies@ =~= old(enemies)@.skip(k + 1));
        }
        let ghost out_before = out@.map_values(|x: Enemy| x@);
        proof {
            assert(e@ == es0[k]);
            assert(wf_enemy(e@));
        }
        e.shoot();
        proof {
            assert(wf_enemy(e@)) by {
                assert(forall|i: int| 0 <= i < e@.bullets.len() - 1 ==> wf_bullet(
                    #[trigger] e@.bullets[i],
                ) && e@.bullets[i].is_enemy_bullet);
            }
        }
        out.push(e);
        proof {
            assert(out@.map_values(|x: Enemy| x@) =~= out_before.push(enemy_shoot(es0[k])));
            assert(out@.map_values(|x: Enemy| x@) =~= es0.take(k + 1).map_values(
                |x: EnemyModel| enemy_shoot(x),
            ));
        }
    }
    proof {
        assert(es0.take(total) =~= es0);
    }
    core::mem::swap(enemies, &mut out);
}

} // verus!
