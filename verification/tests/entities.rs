use flash_plane::entities::{health_bar_length, Bullet, Enemy, EnemyType, Player, Weapon};

#[test]
fn hurt_subtracts_damage() {
    let mut p = Player::new(Weapon::MachineGun);
    assert_eq!(p.health, 20);
    p.hurt(5);
    assert_eq!(p.health, 15);
}

#[test]
fn hurt_saturates_at_zero() {
    let mut p = Player::new(Weapon::MachineGun);
    p.hurt(50);
    assert_eq!(p.health, 0);
    p.hurt(1);
    assert_eq!(p.health, 0);
}

#[test]
fn hurt_exact_damage_reaches_zero() {
    let mut p = Player::new(Weapon::MachineGun);
    p.hurt(20);
    assert_eq!(p.health, 0);
}

#[test]
fn repeated_hits_clamp_at_total() {
    // ten health, five hits of two: exactly zero, no underflow
    let mut p = Player::new(Weapon::MachineGun);
    p.hurt(10);
    assert_eq!(p.health, 10);
    for _ in 0..5 {
        p.hurt(2);
    }
    assert_eq!(p.health, 0);
}

#[test]
fn weapon_stats_applied_at_creation() {
    let mg = Player::new(Weapon::MachineGun);
    assert_eq!((mg.attack, mg.attack_speed_tenths), (2, 12));
    let laser = Player::new(Weapon::Laser);
    assert_eq!((laser.attack, laser.attack_speed_tenths), (4, 8));
    let sg = Player::new(Weapon::ShotGun);
    assert_eq!((sg.attack, sg.attack_speed_tenths), (4, 10));
}

#[test]
fn new_player_defaults() {
    let p = Player::new(Weapon::Laser);
    assert_eq!((p.position_x, p.position_y), (40, 40));
    assert_eq!((p.health, p.max_health), (20, 20));
    assert_eq!((p.experience, p.level, p.coins), (0, 1, 0));
    assert_eq!(p.current_weapon, Weapon::Laser);
}

#[test]
fn player_moves_one_cell() {
    let mut p = Player::new(Weapon::MachineGun);
    p.move_player('W');
    assert_eq!((p.position_x, p.position_y), (40, 39));
    p.move_player('S');
    assert_eq!((p.position_x, p.position_y), (40, 40));
    p.move_player('A');
    assert_eq!((p.position_x, p.position_y), (39, 40));
    p.move_player('D');
    assert_eq!((p.position_x, p.position_y), (40, 40));
    p.move_player('x');
    assert_eq!((p.position_x, p.position_y), (40, 40));
}

#[test]
fn player_movement_clamped_to_field() {
    let mut p = Player::new(Weapon::MachineGun);
    p.position_x = 0;
    p.position_y = 6;
    p.move_player('W');
    assert_eq!(p.position_y, 6);
    p.move_player('A');
    assert_eq!(p.position_x, 0);
    p.position_x = 79;
    p.position_y = 49;
    p.move_player('S');
    assert_eq!(p.position_y, 49);
    p.move_player('D');
    assert_eq!(p.position_x, 79);
}

#[test]
fn enemy_stat_table() {
    let scout = Enemy::new(EnemyType::Scout);
    assert_eq!((scout.max_health, scout.health), (10, 10));
    assert_eq!((scout.bullet_damage, scout.collision_damage), (0, 1));
    assert!(!scout.is_elites && !scout.is_boss);
    assert_eq!((scout.direction_x, scout.direction_y), (4, 2));
    assert_eq!((scout.position_x, scout.position_y), (40, 6));
    assert!(scout.bullets.is_empty());

    let heavy = Enemy::new(EnemyType::HeavyShip);
    assert_eq!((heavy.max_health, heavy.bullet_damage, heavy.collision_damage), (50, 3, 3));
    assert_eq!((heavy.direction_x, heavy.direction_y), (0, 1));

    let carrier = Enemy::new(EnemyType::Carrier);
    assert_eq!((carrier.max_health, carrier.collision_damage), (100, 5));
    assert!(carrier.is_elites && !carrier.is_boss);
    assert_eq!((carrier.direction_x, carrier.direction_y), (0, 0));

    let ghost_fighter = Enemy::new(EnemyType::GhostFighter);
    assert_eq!((ghost_fighter.max_health, ghost_fighter.bullet_damage), (80, 4));
    assert!(ghost_fighter.is_elites);

    let destroyer = Enemy::new(EnemyType::Destroyer);
    assert_eq!((destroyer.max_health, destroyer.bullet_damage), (200, 8));
    assert!(destroyer.is_boss && !destroyer.is_elites);
}

#[test]
fn enemy_moves_by_direction() {
    let mut e = Enemy::new(EnemyType::Scout);
    e.position_x = 20;
    e.position_y = 20;
    e.move_enemy();
    assert_eq!((e.position_x, e.position_y), (24, 22));
}

#[test]
fn enemy_bounces_off_walls() {
    let mut e = Enemy::new(EnemyType::Scout);
    e.position_x = 78;
    e.position_y = 20;
    e.move_enemy();
    assert_eq!(e.position_x, 74);
    assert_eq!(e.direction_x, -4);
    // the y wall at the bottom reflects too
    let mut d = Enemy::new(EnemyType::HeavyShip);
    d.position_x = 10;
    d.position_y = 50;
    d.move_enemy();
    assert_eq!(d.position_y, 49);
    assert_eq!(d.direction_y, -1);
}

#[test]
fn only_heavy_ships_shoot() {
    let mut heavy = Enemy::new(EnemyType::HeavyShip);
    heavy.position_x = 12;
    heavy.position_y = 9;
    heavy.shoot();
    assert_eq!(heavy.bullets.len(), 1);
    let b = heavy.bullets[0];
    assert_eq!((b.position_x, b.position_y), (12, 9));
    assert_eq!(b.damage, 3);
    assert!(b.is_enemy_bullet);

    let mut scout = Enemy::new(EnemyType::Scout);
    scout.shoot();
    assert!(scout.bullets.is_empty());
}

#[test]
fn friendly_bullet_moves_up() {
    let p = Player::new(Weapon::MachineGun);
    let mut b = Bullet::new(&p);
    assert_eq!((b.position_x, b.position_y), (40, 40));
    assert_eq!(b.damage, 2);
    assert!(!b.is_enemy_bullet);
    for _ in 0..3 {
        b.move_bullet();
    }
    assert_eq!(b.position_y, 37);
}

#[test]
fn hostile_bullet_moves_down() {
    let e = Enemy::new(EnemyType::HeavyShip);
    let mut b = Bullet::new_enemy(&e);
    assert_eq!((b.position_x, b.position_y), (40, 6));
    assert!(b.is_enemy_bullet);
    for _ in 0..4 {
        b.move_bullet();
    }
    assert_eq!(b.position_y, 10);
}

#[test]
fn out_of_bounds_rules() {
    let friendly = Bullet { position_x: 10, position_y: -1, damage: 2, is_enemy_bullet: false };
    assert!(friendly.is_out_of_bounds());
    let friendly_in = Bullet { position_x: 10, position_y: 0, damage: 2, is_enemy_bullet: false };
    assert!(!friendly_in.is_out_of_bounds());
    let hostile = Bullet { position_x: 10, position_y: 50, damage: 2, is_enemy_bullet: true };
    assert!(hostile.is_out_of_bounds());
    let hostile_in = Bullet { position_x: 10, position_y: 49, damage: 2, is_enemy_bullet: true };
    assert!(!hostile_in.is_out_of_bounds());
    // a hostile bullet deep in the field is fine even where a friendly
    // one would be gone
    let hostile_top = Bullet { position_x: 10, position_y: -1, damage: 2, is_enemy_bullet: true };
    assert!(!hostile_top.is_out_of_bounds());
}

#[test]
fn bullet_hit_tests_are_direction_filtered() {
    let mut e = Enemy::new(EnemyType::Scout);
    e.position_x = 7;
    e.position_y = 9;
    let mut p = Player::new(Weapon::MachineGun);
    p.position_x = 7;
    p.position_y = 9;

    let friendly = Bullet { position_x: 7, position_y: 9, damage: 2, is_enemy_bullet: false };
    assert!(friendly.hit_enemy(&e));
    assert!(!friendly.hit_player(&p));

    let hostile = Bullet { position_x: 7, position_y: 9, damage: 2, is_enemy_bullet: true };
    assert!(!hostile.hit_enemy(&e));
    assert!(hostile.hit_player(&p));

    let off = Bullet { position_x: 8, position_y: 9, damage: 2, is_enemy_bullet: false };
    assert!(!off.hit_enemy(&e));
}

#[test]
fn health_bar_proportions() {
    assert_eq!(health_bar_length(10, 10), 10);
    assert_eq!(health_bar_length(5, 10), 5);
    assert_eq!(health_bar_length(0, 10), 0);
    assert_eq!(health_bar_length(1, 3), 3);
    assert_eq!(health_bar_length(49, 50), 9);
}
