use flash_plane::combat::{
    apply_enemy_collisions, enemies_shoot, move_and_cull_enemies, resolve_enemy_bullets,
    resolve_player_bullets,
};
use flash_plane::entities::{Bullet, Enemy, EnemyType, Weapon};
use flash_plane::state::{GameMode, Key, State};

#[test]
fn spawn_wave_counts_and_placement() {
    for wave in 1..6u32 {
        let mut s = State::new();
        s.spawn_wave(wave);
        let expected = 2 + (wave - 1) * 2;
        assert_eq!(s.enemies.len() as u32, expected);
        assert_eq!(s.wave_enemy_count, expected);
        for e in &s.enemies {
            assert!((5..=75).contains(&e.position_x));
            assert_eq!(e.position_y, 6);
        }
    }
}

#[test]
fn spawn_wave_types_follow_table() {
    let mut s = State::new();
    s.spawn_wave(1);
    assert!(s.enemies.iter().all(|e| e.enemy_type == EnemyType::Scout));
    let mut s2 = State::new();
    s2.spawn_wave(2);
    assert!(s2.enemies.iter().all(|e| e.enemy_type == EnemyType::HeavyShip));
    let mut s3 = State::new();
    s3.spawn_wave(3);
    assert!(s3.enemies.iter().all(|e| e.enemy_type == EnemyType::Carrier));
    let mut s4 = State::new();
    s4.spawn_wave(4);
    assert!(s4.enemies.iter().all(|e| e.enemy_type == EnemyType::Scout));
}

#[test]
fn five_bullets_kill_a_scout_and_the_cull_removes_it() {
    // two scouts with ten health each; five bullets of damage two all
    // aimed at the first one
    let mut target = Enemy::new(EnemyType::Scout);
    target.position_x = 10;
    target.position_y = 10;
    let mut bystander = Enemy::new(EnemyType::Scout);
    bystander.position_x = 30;
    bystander.position_y = 30;
    let mut enemies = vec![target, bystander];

    let mut bullets = Vec::new();
    for _ in 0..5 {
        // a friendly bullet moves up one row before the hit test
        bullets.push(Bullet { position_x: 10, position_y: 11, damage: 2, is_enemy_bullet: false });
    }

    resolve_player_bullets(&mut bullets, &mut enemies);
    assert!(bullets.is_empty());
    assert_eq!(enemies.len(), 2);
    assert_eq!(enemies[0].health, 0);
    assert_eq!(enemies[1].health, 10);

    // the dead enemy leaves on the next movement pass
    move_and_cull_enemies(&mut enemies);
    assert_eq!(enemies.len(), 1);
    assert_eq!(enemies[0].health, 10);
}

#[test]
fn a_bullet_hits_at_most_one_enemy() {
    let mut first = Enemy::new(EnemyType::Scout);
    first.position_x = 10;
    first.position_y = 10;
    let mut second = Enemy::new(EnemyType::Scout);
    second.position_x = 10;
    second.position_y = 10;
    let mut enemies = vec![first, second];
    let mut bullets =
        vec![Bullet { position_x: 10, position_y: 11, damage: 2, is_enemy_bullet: false }];
    resolve_player_bullets(&mut bullets, &mut enemies);
    assert!(bullets.is_empty());
    assert_eq!(enemies[0].health, 8);
    assert_eq!(enemies[1].health, 10);
}

#[test]
fn colocated_enemies_each_deal_contact_damage() {
    let mut s = State::new();
    s.player.position_x = 20;
    s.player.position_y = 20;
    let mut a = Enemy::new(EnemyType::Scout);
    a.position_x = 20;
    a.position_y = 20;
    let mut b = Enemy::new(EnemyType::Scout);
    b.position_x = 20;
    b.position_y = 20;
    let enemies = vec![a, b];
    assert_eq!(s.player.health, 20);
    apply_enemy_collisions(&mut s.player, &enemies);
    assert_eq!(s.player.health, 18);
}

#[test]
fn enemy_bullets_hit_the_player() {
    let mut s = State::new();
    s.player.position_x = 15;
    s.player.position_y = 30;
    let mut heavy = Enemy::new(EnemyType::HeavyShip);
    heavy.position_x = 15;
    heavy.position_y = 20;
    // one bullet that will land on the player this pass, one that misses
    heavy.bullets.push(Bullet { position_x: 15, position_y: 29, damage: 3, is_enemy_bullet: true });
    heavy.bullets.push(Bullet { position_x: 40, position_y: 29, damage: 3, is_enemy_bullet: true });
    let mut enemies = vec![heavy];
    resolve_enemy_bullets(&mut enemies, &mut s.player);
    assert_eq!(s.player.health, 17);
    assert_eq!(enemies[0].bullets.len(), 1);
    assert_eq!(enemies[0].bullets[0].position_y, 30);
}

#[test]
fn out_of_bounds_bullets_are_dropped() {
    let mut enemies: Vec<Enemy> = Vec::new();
    let mut bullets =
        vec![Bullet { position_x: 3, position_y: 0, damage: 2, is_enemy_bullet: false }];
    resolve_player_bullets(&mut bullets, &mut enemies);
    assert!(bullets.is_empty());
}

#[test]
fn every_heavy_ship_fires_on_the_shared_gate() {
    let mut enemies = vec![
        Enemy::new(EnemyType::HeavyShip),
        Enemy::new(EnemyType::Scout),
        Enemy::new(EnemyType::HeavyShip),
    ];
    enemies_shoot(&mut enemies);
    assert_eq!(enemies[0].bullets.len(), 1);
    assert_eq!(enemies[1].bullets.len(), 0);
    assert_eq!(enemies[2].bullets.len(), 1);
}

#[test]
fn new_game_starts_in_the_menu() {
    let s = State::new();
    assert_eq!(s.mode, GameMode::Menu);
    assert_eq!(s.weapon, Weapon::MachineGun);
    assert_eq!(s.current_wave, 1);
    assert_eq!(s.wave_enemy_count, 0);
    assert!(s.enemies.is_empty() && s.bullets.is_empty());
    assert_eq!(s.countdown_timer, 600_000);
}

#[test]
fn menu_transitions() {
    let mut s = State::new();
    let quit = s.tick(16, Some(Key::W));
    assert!(!quit);
    assert_eq!(s.mode, GameMode::Equipment);

    let mut s2 = State::new();
    assert!(s2.tick(16, Some(Key::E)));
    assert_eq!(s2.mode, GameMode::Menu);

    let mut s3 = State::new();
    assert!(!s3.tick(16, Some(Key::Q)));
    assert_eq!(s3.mode, GameMode::Playing);
    assert_eq!(s3.enemies.len(), 2);

    let mut s4 = State::new();
    assert!(!s4.tick(16, Some(Key::A)));
    assert_eq!(s4.mode, GameMode::Menu);
}

#[test]
fn equipment_selection_is_pending_until_restart() {
    let mut s = State::new();
    s.tick(16, Some(Key::W));
    assert_eq!(s.mode, GameMode::Equipment);
    s.tick(16, Some(Key::W));
    assert_eq!(s.weapon, Weapon::Laser);
    // the live player still carries the old weapon's stats
    assert_eq!(s.player.attack, 2);
    s.tick(16, Some(Key::R));
    assert_eq!(s.mode, GameMode::Menu);
    s.tick(16, Some(Key::Q));
    assert_eq!(s.player.attack, 4);
    assert_eq!(s.player.current_weapon, Weapon::Laser);
}

#[test]
fn restart_from_the_end_screen_resets_the_run() {
    let mut s = State::new();
    s.tick(16, Some(Key::Q));
    // leave a bullet in flight and a part-filled enemy-fire accumulator
    s.tick(100, None);
    assert!(!s.bullets.is_empty());
    assert!(s.enemy_bullet_timer > 0);
    s.player.hurt(50);
    s.player.coins = 7;
    s.player.level = 3;
    s.tick(16, None);
    assert_eq!(s.mode, GameMode::End);

    s.tick(16, Some(Key::Q));
    assert_eq!(s.mode, GameMode::Playing);
    assert_eq!(s.player.level, 1);
    assert_eq!(s.player.health, 20);
    assert_eq!(s.player.coins, 0);
    assert_eq!(s.current_wave, 1);
    assert_eq!(s.enemies.len(), 2);
    assert_eq!(s.countdown_timer, 600_000);
    // the reset is full: no stale bullets, no part-run accumulators
    assert!(s.bullets.is_empty());
    assert_eq!(s.enemy_bullet_timer, 0);
    assert_eq!(s.wave_timer, 0);
    assert_eq!(s.frame_time, 0);
}

#[test]
fn end_screen_can_return_to_menu() {
    let mut s = State::new();
    s.tick(16, Some(Key::Q));
    s.player.hurt(50);
    s.tick(16, None);
    assert_eq!(s.mode, GameMode::End);
    s.tick(16, Some(Key::W));
    assert_eq!(s.mode, GameMode::Menu);
}

#[test]
fn playing_tick_fires_and_counts_down() {
    let mut s = State::new();
    s.tick(16, Some(Key::Q));
    assert!(s.bullets.is_empty());
    // 1100 ms: past the fire gate (62 ms for the machine gun) and past
    // one countdown second
    s.tick(1100, None);
    assert_eq!(s.bullets.len(), 1);
    assert_eq!(s.bullets[0].damage, 2);
    assert!(!s.bullets[0].is_enemy_bullet);
    assert_eq!(s.countdown_timer, 599_000);
    assert_eq!(s.countdown_time, 0);
    assert_eq!(s.frame_time, 0);
}

#[test]
fn playing_tick_moves_enemies_on_their_gate() {
    let mut s = State::new();
    s.tick(16, Some(Key::Q));
    let before: Vec<(i32, i32)> =
        s.enemies.iter().map(|e| (e.position_x, e.position_y)).collect();
    // below the 750 ms enemy-move gate nothing moves
    s.tick(100, None);
    let mid: Vec<(i32, i32)> = s.enemies.iter().map(|e| (e.position_x, e.position_y)).collect();
    assert_eq!(before, mid);
    // past the threshold every scout advances by its (4, 2) vector
    s.tick(700, None);
    for (i, e) in s.enemies.iter().enumerate() {
        assert_eq!(e.position_y, mid[i].1 + 2);
    }
}

#[test]
fn remenu_from_playing_keeps_the_snapshot() {
    let mut s = State::new();
    s.tick(16, Some(Key::Q));
    s.tick(100, None);
    let enemies = s.enemies.len();
    let health = s.player.health;
    s.tick(16, Some(Key::E));
    assert_eq!(s.mode, GameMode::Menu);
    assert_eq!(s.enemies.len(), enemies);
    assert_eq!(s.player.health, health);
}

#[test]
fn wasd_moves_the_player_during_play() {
    let mut s = State::new();
    s.tick(16, Some(Key::Q));
    let y = s.player.position_y;
    s.tick(1, Some(Key::W));
    assert_eq!(s.player.position_y, y - 1);
    let x = s.player.position_x;
    s.tick(1, Some(Key::D));
    assert_eq!(s.player.position_x, x + 1);
}

#[test]
fn death_ends_the_run() {
    let mut s = State::new();
    s.tick(16, Some(Key::Q));
    s.player.hurt(20);
    assert_eq!(s.player.health, 0);
    let quit = s.tick(1, None);
    assert!(!quit);
    assert_eq!(s.mode, GameMode::End);
}

#[test]
fn cleared_wave_respawns_after_the_interval() {
    let mut s = State::new();
    s.tick(16, Some(Key::Q));
    // kill everything and let a tick recount
    for e in &mut s.enemies {
        e.health = 0;
    }
    s.tick(800, None); // movement pass culls the dead, recount sees zero
    assert_eq!(s.enemies.len(), 0);
    assert_eq!(s.wave_enemy_count, 0);
    // wait out the five-second wave interval
    s.tick(6000, None);
    assert_eq!(s.current_wave, 2);
    assert_eq!(s.enemies.len(), 4);
    assert!(s.enemies.iter().all(|e| e.enemy_type == EnemyType::HeavyShip));
}
