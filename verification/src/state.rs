//! Top-level simulation state: the mode state machine, the wave spawner,
//! the frame-time accumulators, and the per-tick simulation step.
//!
//! Time is modeled in whole milliseconds. The original frame driver hands
//! the elapsed frame time to [`State::tick`]; accumulator sums saturate
//! rather than overflow, and every accumulator resets to exactly zero when
//! it crosses its threshold, discarding any overshoot.

use vstd::prelude::*;
use crate::entities::{
    Bullet, Enemy, EnemyModel, EnemyType, Player, Weapon, enemy_shoot,
    initial_enemy, initial_player, player_bullet, player_move, wf_bullet, wf_enemy, wf_player,
};
use crate::combat::{
    apply_enemy_collisions, enemies_shoot, move_and_cull_enemies, move_cull_enemies,
    player_after_collisions, resolve_enemy_bullets, resolve_enemy_bullets_spec,
    resolve_player_bullets, resolve_player_bullets_spec,
    lemma_collisions_only_health, lemma_enemy_bullets_only_health,
};
use crate::rng::random_in_range;

verus! {

/// Base frame unit gating player fire and (times ten) enemy movement.
pub const FRAME_DURATION_MS: u64 = 75;

/// One second: the countdown step and the enemy fire cadence.
pub const FRAME_COUNTDOWN_MS: u64 = 1000;

/// Pause between the clearing of one wave and the spawning of the next.
pub const WAVE_INTERVAL_MS: u64 = 5000;

/// Enemies in the first wave; each later wave adds two.
pub const STARTING_ENEMIES: u32 = 2;

/// Smallest column an enemy may spawn in.
pub const ENEMY_SPAWN_X_MIN: i32 = 5;

/// Largest column an enemy may spawn in.
pub const ENEMY_SPAWN_X_MAX: i32 = 75;

/// Initial value of the countdown display: ten minutes.
pub const COUNTDOWN_START_MS: u64 = 1000 * 600;

/// Largest wave number the spawner can size a wave for without its enemy
/// count overflowing.
pub const WAVE_LIMIT: u32 = 2147483647;

/// The top-level mode the game is in.
#[derive(Clone, Copy, PartialEq, Eq, Structural, Debug)]
pub enum GameMode {
    Menu,
    Playing,
    Equipment,
    End,
}

/// One discrete key event, already decoded from the input backend. Only
/// these seven keys mean anything in any mode.
#[derive(Clone, Copy, PartialEq, Eq, Structural, Debug)]
pub enum Key {
    Q,
    W,
    E,
    R,
    A,
    S,
    D,
}

/// The whole simulation state.
pub struct State {
    pub mode: GameMode,
    /// The pending weapon selection; takes effect on the next restart.
    pub weapon: Weapon,
    /// The player's bullets in flight.
    pub bullets: Vec<Bullet>,
    pub player: Player,
    /// Accumulator gating player fire rate.
    pub frame_time: u64,
    /// Accumulator gating the countdown display.
    pub countdown_time: u64,
    /// The countdown display value, in milliseconds.
    pub countdown_timer: u64,
    /// Accumulator gating enemy movement.
    pub frame_enemymove_time: u64,
    pub enemies: Vec<Enemy>,
    pub current_wave: u32,
    /// Live enemies of the current wave; re-derived from the enemy list
    /// every playing tick.
    pub wave_enemy_count: u32,
    /// Accumulator gating the spawning of the next wave.
    pub wave_timer: u64,
    /// Accumulator gating heavy-ship fire.
    pub enemy_bullet_timer: u64,
}

/// Spec-level model of the whole simulation state.
#[verifier::ext_equal]
pub ghost struct StateModel {
    pub mode: GameMode,
    pub weapon: Weapon,
    pub bullets: Seq<Bullet>,
    pub player: Player,
    pub frame_time: u64,
    pub countdown_time: u64,
    pub countdown_timer: u64,
    pub frame_enemymove_time: u64,
    pub enemies: Seq<EnemyModel>,
    pub current_wave: u32,
    pub wave_enemy_count: u32,
    pub wave_timer: u64,
    pub enemy_bullet_timer: u64,
}

impl View for State {
    type V = StateModel;

    open spec fn view(&self) -> StateModel {
        StateModel {
            mode: self.mode,
            weapon: self.weapon,
            bullets: self.bullets@,
            player: self.player,
            frame_time: self.frame_time,
            countdown_time: self.countdown_time,
            countdown_timer: self.countdown_timer,
            frame_enemymove_time: self.frame_enemymove_time,
            enemies: self.enemies@.map_values(|e: Enemy| e@),
            current_wave: self.current_wave,
            wave_enemy_count: self.wave_enemy_count,
            wave_timer: self.wave_timer,
            enemy_bullet_timer: self.enemy_bullet_timer,
        }
    }
}

/// The state's invariant: the player is on screen, every enemy and every
/// bullet is well formed and on the right side, the player's bullet list
/// holds only friendly bullets, the wave number is positive, and the
/// cached wave count equals the live enemy count.
pub open spec fn wf_state(s: StateModel) -> bool {
    &&& wf_player(s.player)
    &&& forall|i: int| 0 <= i < s.enemies.len() ==> wf_enemy(#[trigger] s.enemies[i])
    &&& forall|i: int| 0 <= i < s.bullets.len() ==> wf_bullet(#[trigger] s.bullets[i])
        && !s.bullets[i].is_enemy_bullet
    &&& s.current_wave >= 1
    &&& s.enemies.len() == s.wave_enemy_count
}

/// Unsigned 64-bit addition clamped at the maximum.
pub open spec fn sat_add64(a: u64, b: u64) -> u64 {
    if a + b > u64::MAX {
        u64::MAX
    } else {
        (a + b) as u64
    }
}

/// Unsigned 64-bit subtraction clamped at zero.
pub open spec fn sat_sub64(a: u64, b: u64) -> u64 {
    if a >= b {
        (a - b) as u64
    } else {
        0
    }
}

// -------------------------------------------------------------- spawner

/// The enemy type each wave sends: wave 1 scouts, wave 2 heavy ships,
/// wave 3 carriers, and every later wave scouts again.
pub open spec fn wave_enemy_type(wave: u32) -> EnemyType {
    if wave == 1 {
        EnemyType::Scout
    } else if wave == 2 {
        EnemyType::HeavyShip
    } else if wave == 3 {
        EnemyType::Carrier
    } else {
        EnemyType::Scout
    }
}

/// How many enemies the given wave spawns.
pub open spec fn spawn_count(wave: u32) -> u32
    recommends
        1 <= wave <= WAVE_LIMIT,
{
    (STARTING_ENEMIES + (wave - 1) * 2) as u32
}

/// What the spawner promises of one spawned enemy: the wave's type with
/// table stats, a spawn column within the spawn range, on the top row.
/// The column itself is drawn at random and is not pinned.
pub open spec fn is_spawned(e: EnemyModel, wave: u32) -> bool {
    &&& ENEMY_SPAWN_X_MIN <= e.position_x <= ENEMY_SPAWN_X_MAX
    &&& e == (EnemyModel { position_x: e.position_x, ..initial_enemy(wave_enemy_type(wave)) })
}

/// What the spawner promises of a whole wave: exactly `spawn_count(wave)`
/// enemies, each as [`is_spawned`] says.
pub open spec fn spawned_wave_ok(es: Seq<EnemyModel>, wave: u32) -> bool {
    &&& es.len() == spawn_count(wave)
    &&& forall|i: int| 0 <= i < es.len() ==> is_spawned(#[trigger] es[i], wave)
}

/// Every enemy a wave spawns satisfies the state invariant.
pub proof fn lemma_spawned_wf(es: Seq<EnemyModel>, wave: u32)
    requires
        spawned_wave_ok(es, wave),
    ensures
        forall|i: int| 0 <= i < es.len() ==> wf_enemy(#[trigger] es[i]),
{
    assert forall|i: int| 0 <= i < es.len() implies wf_enemy(#[trigger] es[i]) by {
        assert(is_spawned(es[i], wave));
    };
}

// ------------------------------------------------- transition relations

/// How a restart changes the state: back to playing, a fresh player with
/// the pending weapon, the enemy list replaced by a fresh first wave, no
/// bullets in flight, wave counters and every accumulator reset. Only the
/// pending weapon choice survives a restart.
pub open spec fn restart_rel(pre: StateModel, post: StateModel) -> bool {
    &&& spawned_wave_ok(post.enemies, 1)
    &&& post == (StateModel {
        mode: GameMode::Playing,
        player: initial_player(pre.weapon),
        bullets: Seq::empty(),
        enemies: post.enemies,
        current_wave: 1,
        wave_enemy_count: spawn_count(1),
        frame_time: 0,
        countdown_time: 0,
        countdown_timer: COUNTDOWN_START_MS,
        frame_enemymove_time: 0,
        wave_timer: 0,
        enemy_bullet_timer: 0,
        ..pre
    })
}

/// The main menu: play, equipment screen, or quit; other keys are ignored.
pub open spec fn menu_rel(pre: StateModel, post: StateModel, key: Option<Key>, quit: bool) -> bool {
    match key {
        Some(Key::Q) => restart_rel(pre, post) && !quit,
        Some(Key::W) => post == (StateModel { mode: GameMode::Equipment, ..pre }) && !quit,
        Some(Key::E) => post == pre && quit,
        _ => post == pre && !quit,
    }
}

/// The equipment screen: pick a weapon (pending until the next restart)
/// or return to the menu; other keys are ignored.
pub open spec fn equipment_rel(pre: StateModel, post: StateModel, key: Option<Key>) -> bool {
    match key {
        Some(Key::Q) => post == (StateModel { weapon: Weapon::MachineGun, ..pre }),
        Some(Key::W) => post == (StateModel { weapon: Weapon::Laser, ..pre }),
        Some(Key::E) => post == (StateModel { weapon: Weapon::ShotGun, ..pre }),
        Some(Key::R) => post == (StateModel { mode: GameMode::Menu, ..pre }),
        _ => post == pre,
    }
}

/// The end screen: play again or return to the menu; other keys are
/// ignored.
pub open spec fn dead_rel(pre: StateModel, post: StateModel, key: Option<Key>) -> bool {
    match key {
        Some(Key::Q) => restart_rel(pre, post),
        Some(Key::W) => post == (StateModel { mode: GameMode::Menu, ..pre }),
        _ => post == pre,
    }
}

// ------------------------------------------------ playing-tick pipeline

/// All five accumulators take this tick's elapsed milliseconds.
pub open spec fn bump_timers(s: StateModel, elapsed_ms: u64) -> StateModel {
    StateModel {
        frame_time: sat_add64(s.frame_time, elapsed_ms),
        countdown_time: sat_add64(s.countdown_time, elapsed_ms),
        wave_timer: sat_add64(s.wave_timer, elapsed_ms),
        frame_enemymove_time: sat_add64(s.frame_enemymove_time, elapsed_ms),
        enemy_bullet_timer: sat_add64(s.enemy_bullet_timer, elapsed_ms),
        ..s
    }
}

/// A new wave is due: the current wave is cleared and the pause has passed.
pub open spec fn spawn_pending(s: StateModel) -> bool {
    s.wave_enemy_count == 0 && s.wave_timer > WAVE_INTERVAL_MS
}

/// The state after the next wave's enemies have been appended: the wave
/// number advances, the spawned batch joins the list, the cached count is
/// the batch's size, and the wave timer resets.
pub open spec fn with_spawn(s: StateModel, spawned: Seq<EnemyModel>) -> StateModel {
    StateModel {
        current_wave: (s.current_wave + 1) as u32,
        enemies: s.enemies + spawned,
        wave_enemy_count: spawn_count((s.current_wave + 1) as u32),
        wave_timer: 0,
        ..s
    }
}

/// Once a second, the countdown display loses a second.
pub open spec fn countdown_step(s: StateModel) -> StateModel {
    if s.countdown_time > FRAME_COUNTDOWN_MS {
        StateModel {
            countdown_time: 0,
            countdown_timer: sat_sub64(s.countdown_timer, FRAME_COUNTDOWN_MS),
            ..s
        }
    } else {
        s
    }
}

/// The fire threshold: the base frame unit divided by the attack speed,
/// so a higher attack speed fires more often. For a whole-millisecond
/// accumulator, being strictly past `75 / speed` milliseconds is the same
/// as being strictly past its floor, which this integer division takes.
pub open spec fn fire_threshold(p: Player) -> int {
    FRAME_DURATION_MS * 10 / p.attack_speed_tenths as int
}

/// When the fire accumulator has crossed its threshold, the player fires
/// one bullet and the accumulator resets.
pub open spec fn fire_step(s: StateModel) -> StateModel {
    if s.frame_time > fire_threshold(s.player) {
        StateModel { frame_time: 0, bullets: s.bullets.push(player_bullet(s.player)), ..s }
    } else {
        s
    }
}

/// Every co-located enemy deals its collision damage to the player.
pub open spec fn collide_step(s: StateModel) -> StateModel {
    StateModel { player: player_after_collisions(s.player, s.enemies), ..s }
}

/// When the enemy-move accumulator has passed its gate (ten base frame
/// units), every enemy moves and the dead are culled.
pub open spec fn enemymove_step(s: StateModel) -> StateModel {
    if s.frame_enemymove_time > FRAME_DURATION_MS * 10 {
        StateModel { frame_enemymove_time: 0, enemies: move_cull_enemies(s.enemies), ..s }
    } else {
        s
    }
}

/// The player's bullets move and land their hits.
pub open spec fn player_bullets_step(s: StateModel) -> StateModel {
    StateModel {
        bullets: resolve_player_bullets_spec(s.bullets, s.enemies).0,
        enemies: resolve_player_bullets_spec(s.bullets, s.enemies).1,
        ..s
    }
}

/// The enemies' bullets move and land their hits on the player.
pub open spec fn enemy_bullets_step(s: StateModel) -> StateModel {
    StateModel {
        enemies: resolve_enemy_bullets_spec(s.enemies, s.player).0,
        player: resolve_enemy_bullets_spec(s.enemies, s.player).1,
        ..s
    }
}

/// When the enemy-fire accumulator has passed one second, every heavy ship
/// fires and the accumulator resets.
pub open spec fn shoot_step(s: StateModel) -> StateModel {
    if s.enemy_bullet_timer > FRAME_COUNTDOWN_MS {
        StateModel {
            enemy_bullet_timer: 0,
            enemies: s.enemies.map_values(|e: EnemyModel| enemy_shoot(e)),
            ..s
        }
    } else {
        s
    }
}

/// The cached wave count is re-derived from the live enemy list.
pub open spec fn recount_step(s: StateModel) -> StateModel {
    StateModel { wave_enemy_count: s.enemies.len() as u32, ..s }
}

/// The deterministic middle of a playing tick, in the order the tick runs
/// its passes: countdown, player fire, contact damage, enemy movement,
/// player bullets, enemy bullets, enemy fire, recount.
pub open spec fn sim_steps(s: StateModel) -> StateModel {
    recount_step(
        shoot_step(
            enemy_bullets_step(
                player_bullets_step(enemymove_step(collide_step(fire_step(countdown_step(s))))),
            ),
        ),
    )
}

/// The movement and menu keys handled at the end of a playing tick.
/// The restart key is not here: it respawns and is treated apart.
pub open spec fn key_move_step(s: StateModel, key: Option<Key>) -> StateModel {
    match key {
        Some(Key::W) => StateModel { player: player_move(s.player, 'W'), ..s },
        Some(Key::A) => StateModel { player: player_move(s.player, 'A'), ..s },
        Some(Key::S) => StateModel { player: player_move(s.player, 'S'), ..s },
        Some(Key::D) => StateModel { player: player_move(s.player, 'D'), ..s },
        Some(Key::E) => StateModel { mode: GameMode::Menu, ..s },
        _ => s,
    }
}

/// A tick ends in the end mode when the player's health has reached zero.
pub open spec fn death_step(s: StateModel) -> StateModel {
    if s.player.health == 0 {
        StateModel { mode: GameMode::End, ..s }
    } else {
        s
    }
}

/// What follows the spawn decision in a playing tick: the deterministic
/// passes, then the key, then the death check. A restart key leads through
/// [`restart_rel`], whose fresh wave is again random.
pub open spec fn play_rest_rel(mid: StateModel, post: StateModel, key: Option<Key>) -> bool {
    let d = sim_steps(mid);
    if key == Some(Key::R) {
        exists|s2: StateModel| #[trigger] restart_rel(d, s2) && post == death_step(s2)
    } else {
        post == death_step(key_move_step(d, key))
    }
}

/// The front half of a playing tick, up to and including the recount: the
/// accumulators take the elapsed time, a due wave spawns, and the
/// deterministic passes run.
pub open spec fn play_sim_rel(pre: StateModel, post: StateModel, elapsed_ms: u64) -> bool {
    let t = bump_timers(pre, elapsed_ms);
    if spawn_pending(t) {
        exists|spawned: Seq<EnemyModel>|
            #[trigger] spawned_wave_ok(spawned, (t.current_wave + 1) as u32)
                && post == sim_steps(with_spawn(t, spawned))
    } else {
        post == sim_steps(t)
    }
}

/// One whole playing tick: the accumulators take the elapsed time; if a
/// new wave is due, one is spawned (its columns random, so only their
/// range is pinned); then the deterministic passes, the key, and the death
/// check.
pub open spec fn play_rel(pre: StateModel, post: StateModel, elapsed_ms: u64, key: Option<Key>) -> bool {
    let t = bump_timers(pre, elapsed_ms);
    if spawn_pending(t) {
        exists|spawned: Seq<EnemyModel>|
            #[trigger] spawned_wave_ok(spawned, (t.current_wave + 1) as u32)
                && play_rest_rel(with_spawn(t, spawned), post, key)
    } else {
        play_rest_rel(t, post, key)
    }
}

// -------------------------------------------------------------- methods

/// The state a fresh game starts in.
pub open spec fn initial_state() -> StateModel {
    StateModel {
        mode: GameMode::Menu,
        weapon: Weapon::MachineGun,
        bullets: Seq::empty(),
        player: initial_player(Weapon::MachineGun),
        frame_time: 0,
        countdown_time: 0,
        countdown_timer: COUNTDOWN_START_MS,
        frame_enemymove_time: 0,
        enemies: Seq::empty(),
        current_wave: 1,
        wave_enemy_count: 0,
        wave_timer: 0,
        enemy_bullet_timer: 0,
    }
}

impl State {
    /// A fresh game: main menu, machine gun pending, nothing spawned.
    pub fn new() -> (s: State)
        ensures
            s@ == initial_state(),
            wf_state(s@),
    {
        let initial_weapon = Weapon::MachineGun;
        let s = State {
            mode: GameMode::Menu,
            weapon: initial_weapon,
            bullets: Vec::new(),
            player: Player::new(initial_weapon),
            frame_time: 0,
            countdown_time: 0,
            countdown_timer: COUNTDOWN_START_MS,
            frame_enemymove_time: 0,
            enemies: Vec::new(),
            current_wave: 1,
            wave_enemy_count: 0,
            wave_timer: 0,
            enemy_bullet_timer: 0,
        };
        proof {
            assert(s@ =~= initial_state());
        }
        s
    }

    /// Spawn one wave: `STARTING_ENEMIES + (wave - 1) * 2` enemies of the
    /// wave's type, appended to the enemy list, each in a random column of
    /// the spawn range on the top row. Sets the cached wave count to the
    /// batch's size.
    #[verifier::loop_isolation(false)]
    pub fn spawn_wave(&mut self, wave: u32)
        requires
            1 <= wave <= WAVE_LIMIT,
        ensures
            final(self)@ == (StateModel {
                enemies: final(self)@.enemies,
                wave_enemy_count: spawn_count(wave),
                ..old(self)@
            }),
            final(self)@.enemies.len() == old(self)@.enemies.len() + spawn_count(wave),
            final(self)@.enemies.take(old(self)@.enemies.len() as int) == old(self)@.enemies,
            spawned_wave_ok(
                final(self)@.enemies.skip(old(self)@.enemies.len() as int),
                wave,
            ),
    {
        let enemy_count = STARTING_ENEMIES + (wave - 1) * 2;
        self.wave_enemy_count = enemy_count;
        let ghost base = old(self)@.enemies;
        let mut spawned: u32 = 0;
        while spawned < enemy_count
            invariant
                spawned <= enemy_count,
                self@ == (StateModel {
                    enemies: self@.enemies,
                    wave_enemy_count: enemy_count,
                    ..old(self)@
                }),
                self@.enemies.len() == base.len() + spawned,
                self@.enemies.take(base.len() as int) == base,
                forall|i: int| base.len() <= i < self@.enemies.len() ==> is_spawned(
                    #[trigger] self@.enemies[i],
                    wave,
                ),
            decreases enemy_count - spawned,
        {
            let enemy_type = match wave {
                1 => EnemyType::Scout,
                2 => EnemyType::HeavyShip,
                3 => EnemyType::Carrier,
                _ => EnemyType::Scout,
            };
            let mut enemy = Enemy::new(enemy_type);
            enemy.position_x = random_in_range(ENEMY_SPAWN_X_MIN, ENEMY_SPAWN_X_MAX);
            enemy.position_y = 6;
            let ghost before = self@.enemies;
            self.enemies.push(enemy);
            spawned += 1;
            proof {
                assert(enemy@ == (EnemyModel {
                    position_x: enemy@.position_x,
                    ..initial_enemy(wave_enemy_type(wave))
                }));
                assert(self@.enemies =~= before.push(enemy@));
                assert(self@.enemies.take(base.len() as int) =~= base);
            }
        }
        proof {
            assert(spawned_wave_ok(final(self)@.enemies.skip(base.len() as int), wave));
        }
    }

    /// Back into play: a fresh player with the pending weapon, a fresh
    /// first wave, no bullets in flight, and every counter and accumulator
    /// reset. The full simulation reset; only the pending weapon survives.
    pub fn restart(&mut self)
        ensures
            restart_rel(old(self)@, final(self)@),
            wf_state(final(self)@),
    {
        self.mode = GameMode::Playing;
        self.player = Player::new(self.weapon);
        self.bullets.clear();
        self.enemies.clear();
        self.current_wave = 1;
        let wave = self.current_wave;
        self.spawn_wave(wave);
        self.frame_time = 0;
        self.countdown_time = 0;
        self.countdown_timer = COUNTDOWN_START_MS;
        self.frame_enemymove_time = 0;
        self.wave_timer = 0;
        self.enemy_bullet_timer = 0;
        proof {
            assert(final(self)@.enemies =~= final(self)@.enemies.skip(0));
            assert(restart_rel(old(self)@, final(self)@));
            lemma_spawned_wf(final(self)@.enemies, 1);
        }
    }

    /// Back to the main menu. Nothing else changes: a later return to play
    /// resumes the same simulation snapshot.
    pub fn remenu(&mut self)
        ensures
            final(self)@ == (StateModel { mode: GameMode::Menu, ..old(self)@ }),
    {
        self.mode = GameMode::Menu;
    }

    /// To the equipment screen.
    pub fn equipment(&mut self)
        ensures
            final(self)@ == (StateModel { mode: GameMode::Equipment, ..old(self)@ }),
    {
        self.mode = GameMode::Equipment;
    }

    /// The main menu's key handling. Returns whether the game should quit.
    pub fn main_menu(&mut self, key: Option<Key>) -> (quit: bool)
        ensures
            menu_rel(old(self)@, final(self)@, key, quit),
            wf_state(old(self)@) ==> wf_state(final(self)@),
    {
        if let Some(k) = key {
            match k {
                Key::Q => {
                    self.restart();
                    false
                },
                Key::W => {
                    self.equipment();
                    false
                },
                Key::E => true,
                _ => false,
            }
        } else {
            false
        }
    }

    /// The equipment screen's key handling: weapon selection is pending
    /// until the next restart.
    pub fn equipment_menu(&mut self, key: Option<Key>)
        ensures
            equipment_rel(old(self)@, final(self)@, key),
            wf_state(old(self)@) ==> wf_state(final(self)@),
    {
        if let Some(k) = key {
            match k {
                Key::Q => self.weapon = Weapon::MachineGun,
                Key::W => self.weapon = Weapon::Laser,
                Key::E => self.weapon = Weapon::ShotGun,
                Key::R => self.remenu(),
                _ => {},
            }
        }
    }

    /// The end screen's key handling.
    pub fn dead(&mut self, key: Option<Key>)
        ensures
            dead_rel(old(self)@, final(self)@, key),
            wf_state(old(self)@) ==> wf_state(final(self)@),
    {
        if let Some(k) = key {
            match k {
                Key::Q => self.restart(),
                Key::W => self.remenu(),
                _ => {},
            }
        }
    }

    /// The front half of a playing tick: the accumulators take the
    /// elapsed time; a due wave spawns; the countdown ticks; the player
    /// fires; contact damage lands; enemies move and the dead are culled;
    /// both sides' bullets resolve; heavy ships fire; the wave count is
    /// re-derived.
    #[verifier::rlimit(100)]
    fn play_passes(&mut self, elapsed_ms: u64)
        requires
            wf_state(old(self)@),
            old(self)@.current_wave < WAVE_LIMIT,
        ensures
            play_sim_rel(old(self)@, final(self)@, elapsed_ms),
            wf_state(final(self)@),
    {
        let ghost pre = self@;
        self.frame_time = self.frame_time.saturating_add(elapsed_ms);
        self.countdown_time = self.countdown_time.saturating_add(elapsed_ms);
        self.wave_timer = self.wave_timer.saturating_add(elapsed_ms);
        self.frame_enemymove_time = self.frame_enemymove_time.saturating_add(elapsed_ms);
        self.enemy_bullet_timer = self.enemy_bullet_timer.saturating_add(elapsed_ms);
        let ghost t = self@;
        proof {
            assert(t =~= bump_timers(pre, elapsed_ms));
        }

        let ghost mut spawned_wit: Seq<EnemyModel> = Seq::empty();
        if self.wave_enemy_count == 0 && self.wave_timer > WAVE_INTERVAL_MS {
            self.current_wave += 1;
            let wave = self.current_wave;
            self.spawn_wave(wave);
            self.wave_timer = 0;
            proof {
                spawned_wit = self@.enemies.skip(t.enemies.len() as int);
                lemma_spawned_wf(spawned_wit, wave);
                assert(self@.enemies =~= t.enemies + spawned_wit);
                assert(self@ =~= with_spawn(t, spawned_wit));
            }
        }
        let ghost mid = self@;
        proof {
            // model-level well-formedness of the enemy list after the
            // spawn decision
            if spawn_pending(t) {
                assert forall|i: int| 0 <= i < mid.enemies.len() implies wf_enemy(
                    #[trigger] mid.enemies[i],
                ) by {
                    if i < t.enemies.len() {
                        assert(mid.enemies[i] == pre.enemies[i]);
                    } else {
                        assert(mid.enemies[i] == spawned_wit[i - t.enemies.len()]);
                    }
                };
            }
            assert(forall|i: int| 0 <= i < mid.enemies.len() ==> wf_enemy(
                #[trigger] mid.enemies[i],
            ));
        }

        if self.countdown_time > FRAME_COUNTDOWN_MS {
            self.countdown_time = 0;
            self.countdown_timer = self.countdown_timer.saturating_sub(FRAME_COUNTDOWN_MS);
        }
        let ghost s1 = self@;
        proof {
            assert(s1 =~= countdown_step(mid));
        }

        if self.frame_time > FRAME_DURATION_MS * 10 / (self.player.attack_speed_tenths as u64) {
            self.frame_time = 0;
            let new_bullet = self.player.attack();
            self.bullets.push(new_bullet);
        }
        let ghost s2 = self@;
        proof {
            assert(s2 =~= fire_step(s1));
            // the bullet list stays well formed and friendly
            assert(wf_bullet(player_bullet(s1.player)));
            assert(forall|i: int| 0 <= i < s2.bullets.len() ==> wf_bullet(#[trigger] s2.bullets[i])
                && !s2.bullets[i].is_enemy_bullet);
        }

        apply_enemy_collisions(&mut self.player, &self.enemies);
        let ghost s3 = self@;
        proof {
            lemma_collisions_only_health(s2.player, s2.enemies);
            assert(s3 =~= collide_step(s2));
            // vec-level well-formedness for the passes that follow
            assert forall|i: int| 0 <= i < self.enemies@.len() implies wf_enemy(
                #[trigger] self.enemies@[i]@,
            ) by {
                assert(self.enemies@[i]@ == mid.enemies[i]);
            };
        }

        if self.frame_enemymove_time > FRAME_DURATION_MS * 10 {
            self.frame_enemymove_time = 0;
            move_and_cull_enemies(&mut self.enemies);
        }
        let ghost s4 = self@;
        proof {
            assert(s4 =~= enemymove_step(s3));
            assert(forall|i: int| 0 <= i < self.enemies@.len() ==> wf_enemy(
                #[trigger] self.enemies@[i]@,
            ));
            assert(self.enemies@.len() <= mid.enemies.len());
        }

        resolve_player_bullets(&mut self.bullets, &mut self.enemies);
        let ghost s5 = self@;
        proof {
            assert(s5 =~= player_bullets_step(s4));
        }

        resolve_enemy_bullets(&mut self.enemies, &mut self.player);
        let ghost s6 = self@;
        proof {
            lemma_enemy_bullets_only_health(s5.enemies, s5.player);
            assert(s6 =~= enemy_bullets_step(s5));
        }

        if self.enemy_bullet_timer > FRAME_COUNTDOWN_MS {
            self.enemy_bullet_timer = 0;
            enemies_shoot(&mut self.enemies);
        }
        let ghost s7 = self@;
        proof {
            assert(s7 =~= shoot_step(s6));
            assert(self.enemies@.len() <= mid.enemies.len());
            assert(mid.enemies.len() <= u32::MAX) by {
                if spawn_pending(t) {
                    assert(t.enemies.len() == 0);
                } else {
                    assert(mid.enemies.len() == pre.wave_enemy_count);
                }
            }
        }
        self.wave_enemy_count = self.enemies.len() as u32;
        let ghost s8 = self@;
        proof {
            assert(s8 =~= recount_step(s7));
            assert(s8 == sim_steps(mid));
            // the state invariant holds again at the end of the passes
            assert(wf_player(s8.player));
            assert forall|i: int| 0 <= i < s8.enemies.len() implies wf_enemy(
                #[trigger] s8.enemies[i],
            ) by {
                assert(s8.enemies[i] == self.enemies@[i]@);
            };
            assert(forall|i: int| 0 <= i < s8.bullets.len() ==> wf_bullet(#[trigger] s8.bullets[i])
                && !s8.bullets[i].is_enemy_bullet);
            assert(wf_state(s8));
            if spawn_pending(t) {
                assert(spawned_wave_ok(spawned_wit, (t.current_wave + 1) as u32));
                assert(s8 == sim_steps(with_spawn(t, spawned_wit)));
            }
        }
    }

    /// One playing tick, in the order the passes run: accumulators take
    /// the elapsed time; a due wave spawns; the countdown ticks; the
    /// player fires; contact damage lands; enemies move and the dead are
    /// culled; both sides' bullets resolve; heavy ships fire; the wave
    /// count is re-derived; the key is handled; death ends the game.
    pub fn play(&mut self, elapsed_ms: u64, key: Option<Key>)
        requires
            wf_state(old(self)@),
            old(self)@.current_wave < WAVE_LIMIT,
        ensures
            play_rel(old(self)@, final(self)@, elapsed_ms, key),
            wf_state(final(self)@),
    {
        let ghost pre = self@;
        self.play_passes(elapsed_ms);
        let ghost d = self@;

        if let Some(k) = key {
            match k {
                Key::W => self.player.move_player('W'),
                Key::A => self.player.move_player('A'),
                Key::S => self.player.move_player('S'),
                Key::D => self.player.move_player('D'),
                Key::R => self.restart(),
                Key::E => self.remenu(),
                _ => {},
            }
        }
        let ghost s9 = self@;

        if self.player.health == 0 {
            self.mode = GameMode::End;
        }
        proof {
            let t = bump_timers(pre, elapsed_ms);
            if key == Some(Key::R) {
                assert(restart_rel(d, s9));
                assert(self@ =~= death_step(s9));
            } else {
                assert(s9 =~= key_move_step(d, key));
                assert(self@ =~= death_step(s9));
            }
            if spawn_pending(t) {
                let spawned = choose|spawned: Seq<EnemyModel>|
                    #[trigger] spawned_wave_ok(spawned, (t.current_wave + 1) as u32)
                        && d == sim_steps(with_spawn(t, spawned));
                if key == Some(Key::R) {
                    assert(restart_rel(sim_steps(with_spawn(t, spawned)), s9));
                }
                assert(play_rest_rel(with_spawn(t, spawned), self@, key));
                assert(play_rel(pre, self@, elapsed_ms, key));
            } else {
                assert(d == sim_steps(t));
                if key == Some(Key::R) {
                    assert(restart_rel(sim_steps(t), s9));
                }
                assert(play_rest_rel(t, self@, key));
                assert(play_rel(pre, self@, elapsed_ms, key));
            }
            assert(wf_state(self@));
        }
    }

    /// One frame: dispatch on the current mode. Returns whether the game
    /// should quit (only the main menu can ask to).
    pub fn tick(&mut self, elapsed_ms: u64, key: Option<Key>) -> (quit: bool)
        requires
            wf_state(old(self)@),
            old(self)@.current_wave < WAVE_LIMIT,
        ensures
            old(self)@.mode is Menu ==> menu_rel(old(self)@, final(self)@, key, quit),
            old(self)@.mode is Equipment ==> equipment_rel(old(self)@, final(self)@, key) && !quit,
            old(self)@.mode is Playing ==> play_rel(old(self)@, final(self)@, elapsed_ms, key)
                && !quit,
            old(self)@.mode is End ==> dead_rel(old(self)@, final(self)@, key) && !quit,
            wf_state(final(self)@),
    {
        match self.mode {
            GameMode::Menu => self.main_menu(key),
            GameMode::Equipment => {
                self.equipment_menu(key);
                false
            },
            GameMode::Playing => {
                self.play(elapsed_ms, key);
                false
            },
            GameMode::End => {
                self.dead(key);
                false
            },
        }
    }
}

} // verus!
