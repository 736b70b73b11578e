//! General laws of the combat arithmetic and bullet kinematics, proved
//! once and for all inputs.

use vstd::prelude::*;
use crate::entities::{Bullet, EnemyModel, bullet_step, bullet_out_of_bounds, hurt_health};
use crate::combat::{
    damages_on, first_hit_index, resolve_player_bullets_spec,
    lemma_first_hit_index_bounds, lemma_first_hit_positions_only,
    lemma_player_bullets_keep_position_at,
};

verus! {

/// One saturating hit lands at `max(0, health - damage)`: the subtraction
/// never underflows, whatever the damage.
pub proof fn lemma_hurt_is_clamped_sub(health: u32, damage: u32)
    ensures
        hurt_health(health, damage) == (if health - damage >= 0 {
            health - damage
        } else {
            0
        }),
{
}

/// Health after a run of hits, each applied with [`hurt_health`]: the
/// shape damage takes for the player (contact and bullet hits) and for
/// enemies (bullet hits) alike.
pub open spec fn health_after_hits(health: u32, damages: Seq<u32>) -> u32
    decreases damages.len(),
{
    if damages.len() == 0 {
        health
    } else {
        hurt_health(health_after_hits(health, damages.drop_last()), damages.last())
    }
}

/// The sum of a run of damages.
pub open spec fn total_damage(damages: Seq<u32>) -> int
    decreases damages.len(),
{
    if damages.len() == 0 {
        0
    } else {
        total_damage(damages.drop_last()) + damages.last()
    }
}

/// A run of saturating hits lands at `max(0, health - total)`: each
/// individual subtraction saturates, and the outcome depends on the
/// damages only through their sum, so the order of the hits cannot
/// matter.
pub proof fn lemma_hits_saturate(health: u32, damages: Seq<u32>)
    ensures
        health_after_hits(health, damages) == (if health - total_damage(damages) >= 0 {
            health - total_damage(damages)
        } else {
            0
        }),
    decreases damages.len(),
{
    if damages.len() > 0 {
        lemma_hits_saturate(health, damages.drop_last());
    }
}

/// During one bullet pass, the enemy at index `j` takes exactly the chain
/// of saturating hits of the damages that land on it, in resolution order.
pub proof fn lemma_enemy_hits_chain(bs: Seq<Bullet>, es: Seq<EnemyModel>, j: int)
    requires
        0 <= j < es.len(),
    ensures
        resolve_player_bullets_spec(bs, es).1[j].health == health_after_hits(
            es[j].health,
            damages_on(bs, es, j),
        ),
    decreases bs.len(),
{
    if bs.len() > 0 {
        lemma_enemy_hits_chain(bs.drop_last(), es, j);
        let prev = resolve_player_bullets_spec(bs.drop_last(), es);
        let r = resolve_player_bullets_spec(bs, es);
        let b = bullet_step(bs.last());
        let dprev = damages_on(bs.drop_last(), es, j);
        if !bullet_out_of_bounds(b) {
            lemma_player_bullets_keep_position_at(bs.drop_last(), es, j);
            assert forall|k: int| 0 <= k < resolve_player_bullets_spec(bs.drop_last(), es).1.len()
                implies #[trigger] resolve_player_bullets_spec(bs.drop_last(), es).1[k].position_x
                    == es[k].position_x
                && resolve_player_bullets_spec(bs.drop_last(), es).1[k].position_y
                    == es[k].position_y by {
                lemma_player_bullets_keep_position_at(bs.drop_last(), es, k);
            };
            lemma_first_hit_positions_only(prev.1, es, b);
            lemma_first_hit_index_bounds(prev.1, b);
            let j0 = first_hit_index(prev.1, b);
            assert(j0 == first_hit_index(es, b));
            if j0 < prev.1.len() {
                if j0 == j {
                    assert(r.1[j].health == hurt_health(prev.1[j].health, b.damage));
                    assert(damages_on(bs, es, j) == dprev.push(b.damage));
                    assert(dprev.push(b.damage).drop_last() =~= dprev);
                    assert(dprev.push(b.damage).last() == b.damage);
                } else {
                    assert(r.1[j] == prev.1[j]);
                    assert(damages_on(bs, es, j) == dprev);
                }
            } else {
                assert(r.1 == prev.1);
                assert(first_hit_index(es, b) != j);
                assert(damages_on(bs, es, j) == dprev);
            }
        } else {
            assert(r.1 == prev.1);
            assert(damages_on(bs, es, j) == dprev);
        }
    }
}

/// Within one bullet pass, the enemy at index `j` lands at
/// `max(0, health - total)` of exactly the damages that hit it: each
/// individual subtraction saturates and never underflows, and the outcome
/// is a function of the damages' sum alone, so the order of the hits
/// cannot matter.
pub proof fn lemma_pass_damage_is_clamped_total(bs: Seq<Bullet>, es: Seq<EnemyModel>, j: int)
    requires
        0 <= j < es.len(),
    ensures
        resolve_player_bullets_spec(bs, es).1[j].health == (
        if es[j].health - total_damage(damages_on(bs, es, j)) >= 0 {
            es[j].health - total_damage(damages_on(bs, es, j))
        } else {
            0
        }),
{
    lemma_enemy_hits_chain(bs, es, j);
    lemma_hits_saturate(es[j].health, damages_on(bs, es, j));
}

/// Where a bullet stands after `k` movement steps.
pub open spec fn bullet_after_steps(b: Bullet, k: nat) -> Bullet
    decreases k,
{
    if k == 0 {
        b
    } else {
        bullet_step(bullet_after_steps(b, (k - 1) as nat))
    }
}

/// A friendly bullet flies straight up the screen: after `k` steps it
/// stands exactly `k` rows higher, every other field unchanged.
pub proof fn lemma_friendly_bullet_path(b: Bullet, k: nat)
    requires
        !b.is_enemy_bullet,
        b.position_y - k >= i32::MIN,
    ensures
        bullet_after_steps(b, k) == (Bullet { position_y: (b.position_y - k) as i32, ..b }),
    decreases k,
{
    if k > 0 {
        lemma_friendly_bullet_path(b, (k - 1) as nat);
    }
}

/// A hostile bullet flies straight down the screen: after `k` steps it
/// stands exactly `k` rows lower, every other field unchanged.
pub proof fn lemma_hostile_bullet_path(b: Bullet, k: nat)
    requires
        b.is_enemy_bullet,
        b.position_y + k <= i32::MAX,
    ensures
        bullet_after_steps(b, k) == (Bullet { position_y: (b.position_y + k) as i32, ..b }),
    decreases k,
{
    if k > 0 {
        lemma_hostile_bullet_path(b, (k - 1) as nat);
    }
}

} // verus!

