//! Entity model: the player ship, enemies, and bullets, together with the
//! spec-level models that the simulation contracts are stated over.

use vstd::prelude::*;

verus! {

/// Width of the playing field in cells.
pub const SCREEN_WIDTH: i32 = 80;

/// Height of the playing field in cells.
pub const SCREEN_HEIGHT: i32 = 50;

/// Rows above this one are reserved for the HUD; the player may not enter them.
pub const HUD_ROWS: i32 = 6;

// ---------------------------------------------------------------- bullets

/// A projectile. Friendly bullets (fired by the player) travel up the
/// screen; hostile bullets (fired by enemies) travel down.
#[derive(Clone, Copy, PartialEq, Eq, Structural, Debug)]
pub struct Bullet {
    pub position_x: i32,
    pub position_y: i32,
    pub damage: u32,
    pub is_enemy_bullet: bool,
}

/// Where a bullet stands after one movement step: hostile bullets move one
/// cell down the screen, friendly bullets one cell up.
pub open spec fn bullet_step(b: Bullet) -> Bullet {
    if b.is_enemy_bullet {
        Bullet { position_y: (b.position_y + 1) as i32, ..b }
    } else {
        Bullet { position_y: (b.position_y - 1) as i32, ..b }
    }
}

/// A friendly bullet is gone once it leaves the top of the screen, a
/// hostile one once it leaves the bottom.
pub open spec fn bullet_out_of_bounds(b: Bullet) -> bool {
    if b.is_enemy_bullet {
        b.position_y >= SCREEN_HEIGHT
    } else {
        b.position_y < 0
    }
}

/// A bullet that lives in the simulation state sits inside the screen
/// columns and close enough to the rows that one more step cannot overflow.
pub open spec fn wf_bullet(b: Bullet) -> bool {
    &&& 0 <= b.position_x < SCREEN_WIDTH
    &&& 0 <= b.position_y <= SCREEN_HEIGHT
}

// ----------------------------------------------------------------- player

/// The player's weapon; each choice fixes an (attack, attack speed) pair.
#[derive(Clone, Copy, PartialEq, Eq, Structural, Debug)]
pub enum Weapon {
    MachineGun,
    Laser,
    ShotGun,
}

/// Attack damage granted by a weapon.
pub open spec fn weapon_attack(w: Weapon) -> u32 {
    match w {
        Weapon::MachineGun => 2,
        Weapon::Laser => 4,
        Weapon::ShotGun => 4,
    }
}

/// Attack speed granted by a weapon, in tenths: the machine gun fires at
/// 1.2 times the base rate, the laser at 0.8 times, the shotgun at 1.0.
pub open spec fn weapon_attack_speed_tenths(w: Weapon) -> u32 {
    match w {
        Weapon::MachineGun => 12,
        Weapon::Laser => 8,
        Weapon::ShotGun => 10,
    }
}

/// The player-controlled ship.
#[derive(Clone, Copy, PartialEq, Eq, Structural, Debug)]
pub struct Player {
    pub position_x: i32,
    pub position_y: i32,
    pub health: u32,
    pub max_health: u32,
    pub attack: u32,
    /// Attack speed in tenths of the base fire rate; see
    /// [`weapon_attack_speed_tenths`].
    pub attack_speed_tenths: u32,
    pub current_weapon: Weapon,
    pub experience: u32,
    pub level: u32,
    pub coins: u32,
}

/// The player as it stands at the start of a run with the given weapon.
pub open spec fn initial_player(w: Weapon) -> Player {
    Player {
        position_x: 40,
        position_y: 40,
        health: 20,
        max_health: 20,
        attack: weapon_attack(w),
        attack_speed_tenths: weapon_attack_speed_tenths(w),
        current_weapon: w,
        experience: 0,
        level: 1,
        coins: 0,
    }
}

/// The player stays inside the screen columns and below the HUD rows, and
/// its weapon grants a positive fire rate.
pub open spec fn wf_player(p: Player) -> bool {
    &&& 0 <= p.position_x < SCREEN_WIDTH
    &&& HUD_ROWS <= p.position_y < SCREEN_HEIGHT
    &&& p.attack_speed_tenths >= 1
}

/// Saturating damage application: health drops by the damage dealt but
/// never below zero.
pub open spec fn hurt_health(health: u32, damage: u32) -> u32 {
    if health > damage {
        (health - damage) as u32
    } else {
        0
    }
}

/// Where the player stands after one movement command: one cell along the
/// chosen axis, clamped so it stays on screen and out of the HUD rows.
/// Commands other than the four movement keys leave it in place.
pub open spec fn player_move(p: Player, param: char) -> Player {
    match param {
        'W' => if p.position_y > HUD_ROWS {
            Player { position_y: (p.position_y - 1) as i32, ..p }
        } else {
            p
        },
        'S' => if p.position_y < SCREEN_HEIGHT - 1 {
            Player { position_y: (p.position_y + 1) as i32, ..p }
        } else {
            p
        },
        'A' => if p.position_x > 0 {
            Player { position_x: (p.position_x - 1) as i32, ..p }
        } else {
            p
        },
        'D' => if p.position_x < SCREEN_WIDTH - 1 {
            Player { position_x: (p.position_x + 1) as i32, ..p }
        } else {
            p
        },
        _ => p,
    }
}

/// The bullet the player fires: friendly, at the player's cell, carrying
/// the player's attack damage.
pub open spec fn player_bullet(p: Player) -> Bullet {
    Bullet {
        position_x: p.position_x,
        position_y: p.position_y,
        damage: p.attack,
        is_enemy_bullet: false,
    }
}

impl Player {
    /// A fresh player equipped with the given weapon.
    pub fn new(current_weapon: Weapon) -> (p: Player)
        ensures
            p == initial_player(current_weapon),
    {
        let (attack, attack_speed_tenths): (u32, u32) = match current_weapon {
            Weapon::MachineGun => (2, 12),
            Weapon::Laser => (4, 8),
            Weapon::ShotGun => (4, 10),
        };
        Player {
            position_x: 40,
            position_y: 40,
            health: 20,
            max_health: 20,
            attack,
            attack_speed_tenths,
            current_weapon,
            experience: 0,
            level: 1,
            coins: 0,
        }
    }

    /// Fire: construct a friendly bullet at the player's cell; the player
    /// itself is unchanged.
    pub fn attack(&mut self) -> (b: Bullet)
        ensures
            *final(self) == *old(self),
            b == player_bullet(*old(self)),
    {
        Bullet::new(self)
    }

    /// Move one cell in the direction named by the command character,
    /// clamped to the playing field.
    pub fn move_player(&mut self, param: char)
        requires
            wf_player(*old(self)),
        ensures
            *final(self) == player_move(*old(self), param),
            wf_player(*final(self)),
    {
        match param {
            'W' => {
                if self.position_y > HUD_ROWS {
                    self.position_y -= 1;
                }
            },
            'S' => {
                if self.position_y < SCREEN_HEIGHT - 1 {
                    self.position_y += 1;
                }
            },
            'A' => {
                if self.position_x > 0 {
                    self.position_x -= 1;
                }
            },
            'D' => {
                if self.position_x < SCREEN_WIDTH - 1 {
                    self.position_x += 1;
                }
            },
            _ => {},
        }
    }

    /// Take damage: health drops by `damage`, saturating at zero. Never
    /// underflows.
    pub fn hurt(&mut self, damage: u32)
        ensures
            *final(self) == (Player { health: hurt_health(old(self).health, damage), ..*old(self) }),
    {
        if self.health > damage {
            self.health -= damage;
        } else {
            self.health = 0;
        }
    }
}

// ---------------------------------------------------------------- enemies

/// The kinds of enemy ship.
#[derive(Clone, Copy, PartialEq, Eq, Structural, Debug)]
pub enum EnemyType {
    Scout,
    HeavyShip,
    Carrier,
    GhostFighter,
    Destroyer,
}

/// Special abilities carried by elite and boss enemies. Descriptive
/// metadata only: no ability has a behavioral effect yet.
#[derive(Clone, Copy, PartialEq, Eq, Structural, Debug)]
pub enum Ability {
    ShieldField,
    DeathCounter,
    PhaseShift,
    Nope,
}

/// An enemy ship. It owns the bullets it has fired.
#[derive(Debug)]
pub struct Enemy {
    pub enemy_type: EnemyType,
    pub health: u32,
    pub max_health: u32,
    pub bullet_damage: u32,
    pub collision_damage: u32,
    pub position_x: i32,
    pub position_y: i32,
    pub is_elites: bool,
    pub is_boss: bool,
    pub special_ability: Ability,
    pub direction_x: i32,
    pub direction_y: i32,
    pub bullets: Vec<Bullet>,
}

/// Spec-level model of an enemy: the same fields, with the fired bullets
/// as a sequence.
#[verifier::ext_equal]
pub ghost struct EnemyModel {
    pub enemy_type: EnemyType,
    pub health: u32,
    pub max_health: u32,
    pub bullet_damage: u32,
    pub collision_damage: u32,
    pub position_x: i32,
    pub position_y: i32,
    pub is_elites: bool,
    pub is_boss: bool,
    pub special_ability: Ability,
    pub direction_x: i32,
    pub direction_y: i32,
    pub bullets: Seq<Bullet>,
}

impl View for Enemy {
    type V = EnemyModel;

    open spec fn view(&self) -> EnemyModel {
        EnemyModel {
            enemy_type: self.enemy_type,
            health: self.health,
            max_health: self.max_health,
            bullet_damage: self.bullet_damage,
            collision_damage: self.collision_damage,
            position_x: self.position_x,
            position_y: self.position_y,
            is_elites: self.is_elites,
            is_boss: self.is_boss,
            special_ability: self.special_ability,
            direction_x: self.direction_x,
            direction_y: self.direction_y,
            bullets: self.bullets@,
        }
    }
}

/// The fixed stat tuple of an enemy type: (max health, health, bullet
/// damage, collision damage, elite flag, boss flag, special ability).
pub open spec fn enemy_stats(t: EnemyType) -> (u32, u32, u32, u32, bool, bool, Ability) {
    match t {
        EnemyType::Scout => (10, 10, 0, 1, false, false, Ability::Nope),
        EnemyType::HeavyShip => (50, 50, 3, 3, false, false, Ability::Nope),
        EnemyType::Carrier => (100, 100, 0, 5, true, false, Ability::ShieldField),
        EnemyType::GhostFighter => (80, 80, 4, 4, true, false, Ability::DeathCounter),
        EnemyType::Destroyer => (200, 200, 8, 8, false, true, Ability::PhaseShift),
    }
}

/// The fixed initial direction vector of an enemy type.
pub open spec fn enemy_direction(t: EnemyType) -> (i32, i32) {
    match t {
        EnemyType::Scout => (4, 2),
        EnemyType::HeavyShip => (0, 1),
        EnemyType::Carrier => (0, 0),
        EnemyType::GhostFighter => (3, 3),
        EnemyType::Destroyer => (1, 1),
    }
}

/// A freshly constructed enemy of the given type, before the spawner
/// overrides its position: full health per the stat table, at the default
/// cell (40, 6), with no bullets fired.
pub open spec fn initial_enemy(t: EnemyType) -> EnemyModel {
    EnemyModel {
        enemy_type: t,
        health: enemy_stats(t).1,
        max_health: enemy_stats(t).0,
        bullet_damage: enemy_stats(t).2,
        collision_damage: enemy_stats(t).3,
        position_x: 40,
        position_y: 6,
        is_elites: enemy_stats(t).4,
        is_boss: enemy_stats(t).5,
        special_ability: enemy_stats(t).6,
        direction_x: enemy_direction(t).0,
        direction_y: enemy_direction(t).1,
        bullets: Seq::empty(),
    }
}

/// An enemy that lives in the simulation state: on screen (it may stand on
/// the bottom row itself), with a small direction vector, and every bullet
/// it owns hostile and well formed.
pub open spec fn wf_enemy(e: EnemyModel) -> bool {
    &&& 0 <= e.position_x < SCREEN_WIDTH
    &&& HUD_ROWS <= e.position_y <= SCREEN_HEIGHT
    &&& -4 <= e.direction_x <= 4
    &&& -4 <= e.direction_y <= 4
    &&& forall|i: int| 0 <= i < e.bullets.len() ==> wf_bullet(#[trigger] e.bullets[i])
        && e.bullets[i].is_enemy_bullet
}

/// Where an enemy stands after one movement step: it advances by its
/// direction vector, but an axis component whose next position would leave
/// the field is negated first (wall bounce). The bounce tests the position
/// one step ahead, so an enemy may come within one step of the wall and
/// reflect on the following tick rather than stop exactly at the edge.
pub open spec fn enemy_step(e: EnemyModel) -> EnemyModel {
    let dx = if e.position_x + e.direction_x < 0 || e.position_x + e.direction_x > SCREEN_WIDTH - 1 {
        (0 - e.direction_x) as i32
    } else {
        e.direction_x
    };
    let dy = if e.position_y + e.direction_y < HUD_ROWS || e.position_y + e.direction_y > SCREEN_HEIGHT {
        (0 - e.direction_y) as i32
    } else {
        e.direction_y
    };
    EnemyModel {
        position_x: (e.position_x + dx) as i32,
        position_y: (e.position_y + dy) as i32,
        direction_x: dx,
        direction_y: dy,
        ..e
    }
}

/// The bullet an enemy fires: hostile, at the enemy's cell, carrying its
/// bullet damage.
pub open spec fn enemy_bullet(e: EnemyModel) -> Bullet {
    Bullet {
        position_x: e.position_x,
        position_y: e.position_y,
        damage: e.bullet_damage,
        is_enemy_bullet: true,
    }
}

/// An enemy after it attempts a shot: only heavy ships fire; the new
/// bullet is appended to the enemy's own list.
pub open spec fn enemy_shoot(e: EnemyModel) -> EnemyModel {
    if e.enemy_type is HeavyShip {
        EnemyModel { bullets: e.bullets.push(enemy_bullet(e)), ..e }
    } else {
        e
    }
}

impl Enemy {
    /// A fresh enemy of the given type, with stats and direction from the
    /// fixed tables.
    pub fn new(enemy_type: EnemyType) -> (e: Enemy)
        ensures
            e@ == initial_enemy(enemy_type),
    {
        let (max_health, health, bullet_damage, collision_damage, is_elites, is_boss, special_ability):
            (u32, u32, u32, u32, bool, bool, Ability) = match enemy_type {
            EnemyType::Scout => (10, 10, 0, 1, false, false, Ability::Nope),
            EnemyType::HeavyShip => (50, 50, 3, 3, false, false, Ability::Nope),
            EnemyType::Carrier => (100, 100, 0, 5, true, false, Ability::ShieldField),
            EnemyType::GhostFighter => (80, 80, 4, 4, true, false, Ability::DeathCounter),
            EnemyType::Destroyer => (200, 200, 8, 8, false, true, Ability::PhaseShift),
        };
        let (direction_x, direction_y): (i32, i32) = match enemy_type {
            EnemyType::Scout => (4, 2),
            EnemyType::HeavyShip => (0, 1),
            EnemyType::Carrier => (0, 0),
            EnemyType::GhostFighter => (3, 3),
            EnemyType::Destroyer => (1, 1),
        };
        let e = Enemy {
            enemy_type,
            health,
            max_health,
            bullet_damage,
            collision_damage,
            position_x: 40,
            position_y: 6,
            is_elites,
            is_boss,
            special_ability,
            direction_x,
            direction_y,
            bullets: Vec::new(),
        };
        proof {
            assert(e@ =~= initial_enemy(enemy_type));
        }
        e
    }

    /// Advance one movement step, bouncing off the field's walls.
    pub fn move_enemy(&mut self)
        requires
            wf_enemy(old(self)@),
        ensures
            final(self)@ == enemy_step(old(self)@),
            wf_enemy(final(self)@),
    {
        let new_x = self.position_x + self.direction_x;
        let new_y = self.position_y + self.direction_y;

        if new_x < 0 || new_x > SCREEN_WIDTH - 1 {
            self.direction_x = 0 - self.direction_x;
        }
        if new_y < HUD_ROWS || new_y > SCREEN_HEIGHT {
            self.direction_y = 0 - self.direction_y;
        }

        self.position_x += self.direction_x;
        self.position_y += self.direction_y;

        proof {
            assert(final(self)@ =~= enemy_step(old(self)@));
        }
    }

    /// Construct the hostile bullet this enemy fires; the enemy itself is
    /// unchanged.
    pub fn attack(&mut self) -> (b: Bullet)
        ensures
            *final(self) == *old(self),
            b == enemy_bullet(old(self)@),
    {
        Bullet::new_enemy(self)
    }

    /// Attempt a shot: a heavy ship appends a fresh hostile bullet to its
    /// own list; every other type does nothing.
    pub fn shoot(&mut self)
        ensures
            final(self)@ == enemy_shoot(old(self)@),
    {
        if let EnemyType::HeavyShip = self.enemy_type {
            let new_bullet = self.attack();
            self.bullets.push(new_bullet);
        }
        proof {
            assert(final(self)@ =~= enemy_shoot(old(self)@));
        }
    }
}

/// How many of the ten cells of an enemy's health bar are filled: the
/// proportion of health remaining, rounded down.
pub fn health_bar_length(health: u32, max_health: u32) -> (r: u32)
    requires
        max_health > 0,
        health <= max_health,
    ensures
        r == health as int * 10 / max_health as int,
        r <= 10,
{
    proof {
        let h = health as int;
        let m = max_health as int;
        assert(h * 10 / m <= 10) by (nonlinear_arith)
            requires
                m > 0,
                h <= m,
        ;
        assert(h * 10 / m >= 0) by (nonlinear_arith)
            requires
                m > 0,
                h >= 0,
        ;
    }
    ((health as u64 * 10) / (max_health as u64)) as u32
}

impl Bullet {
    /// The player's shot: a friendly bullet at the player's cell.
    pub fn new(player: &Player) -> (b: Bullet)
        ensures
            b == player_bullet(*player),
    {
        Bullet {
            position_x: player.position_x,
            position_y: player.position_y,
            damage: player.attack,
            is_enemy_bullet: false,
        }
    }

    /// An enemy's shot: a hostile bullet at the enemy's cell.
    pub fn new_enemy(enemy: &Enemy) -> (b: Bullet)
        ensures
            b == enemy_bullet(enemy@),
    {
        Bullet {
            position_x: enemy.position_x,
            position_y: enemy.position_y,
            damage: enemy.bullet_damage,
            is_enemy_bullet: true,
        }
    }

    /// Advance the bullet one step along its direction of travel.
    pub fn move_bullet(&mut self)
        requires
            i32::MIN < old(self).position_y < i32::MAX,
        ensures
            *final(self) == bullet_step(*old(self)),
    {
        if self.is_enemy_bullet {
            self.position_y += 1;
        } else {
            self.position_y -= 1;
        }
    }

    /// Whether the bullet has left the playing field.
    pub fn is_out_of_bounds(&self) -> (r: bool)
        ensures
            r == bullet_out_of_bounds(*self),
    {
        if self.is_enemy_bullet {
            self.position_y >= SCREEN_HEIGHT
        } else {
            self.position_y < 0
        }
    }

    /// Whether this bullet hits the given enemy: only friendly bullets test
    /// enemies, by exact cell equality.
    pub fn hit_enemy(&self, enemy: &Enemy) -> (r: bool)
        ensures
            r == bullet_hits_enemy(*self, enemy@),
    {
        !self.is_enemy_bullet && self.position_x == enemy.position_x
            && self.position_y == enemy.position_y
    }

    /// Whether this bullet hits the player: only hostile bullets test the
    /// player, by exact cell equality.
    pub fn hit_player(&self, player: &Player) -> (r: bool)
        ensures
            r == bullet_hits_player(*self, *player),
    {
        self.is_enemy_bullet && self.position_x == player.position_x
            && self.position_y == player.position_y
    }
}

/// A friendly bullet hits an enemy exactly when they share a cell.
pub open spec fn bullet_hits_enemy(b: Bullet, e: EnemyModel) -> bool {
    !b.is_enemy_bullet && b.position_x == e.position_x && b.position_y == e.position_y
}

/// A hostile bullet hits the player exactly when they share a cell.
pub open spec fn bullet_hits_player(b: Bullet, p: Player) -> bool {
    b.is_enemy_bullet && b.position_x == p.position_x && b.position_y == p.position_y
}

} // verus!
