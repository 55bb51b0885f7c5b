//! Enemies: the closed type enumeration with its base-stat table.

use vstd::prelude::*;
use crate::geom::Pos;

verus! {

/// Collision radius of an enemy, in world units.
pub const ENEMY_RADIUS: u32 = 160;

/// Points the score gains for one defeated enemy.
pub const ENEMY_SCORE: u32 = 10;

/// The closed family of enemies.
#[derive(Debug, Clone, Copy, PartialEq, Eq, Structural)]
pub enum EnemyType {
    Basic,
    Fast,
    Tank,
    Shooter,
}

impl EnemyType {
    pub open spec fn spec_base_health(self) -> u32 {
        match self {
            EnemyType::Basic => 50,
            EnemyType::Fast => 30,
            EnemyType::Tank => 150,
            EnemyType::Shooter => 40,
        }
    }

    /// Movement speed in world units per second.
    pub open spec fn spec_base_speed(self) -> u32 {
        match self {
            EnemyType::Basic => 1_000,
            EnemyType::Fast => 1_500,
            EnemyType::Tank => 500,
            EnemyType::Shooter => 800,
        }
    }

    /// Damage dealt on contact with the player.
    pub open spec fn spec_base_damage(self) -> u32 {
        match self {
            EnemyType::Basic => 10,
            EnemyType::Fast => 5,
            EnemyType::Tank => 20,
            EnemyType::Shooter => 15,
        }
    }
}

/// An enemy actor: its stats, resolved from the table at construction.
#[derive(Debug, Clone, Copy, PartialEq, Eq, Structural)]
pub struct Enemy {
    pub enemy_type: EnemyType,
    pub health: u32,
    pub speed: u32,
    pub damage: u32,
}

impl Enemy {
    /// Speed and damage agree with the type's table entry, and health
    /// never exceeds the type's base health.
    pub open spec fn wf(self) -> bool {
        &&& self.health <= self.enemy_type.spec_base_health()
        &&& self.speed == self.enemy_type.spec_base_speed()
        &&& self.damage == self.enemy_type.spec_base_damage()
    }

    /// A fresh enemy of the given type, at full health.
    pub fn new(enemy_type: EnemyType) -> (e: Enemy)
        ensures
            e.enemy_type == enemy_type,
            e.health == enemy_type.spec_base_health(),
            e.wf(),
    {
        match enemy_type {
            EnemyType::Basic => Enemy { enemy_type, health: 50, speed: 1_000, damage: 10 },
            EnemyType::Fast => Enemy { enemy_type, health: 30, speed: 1_500, damage: 5 },
            EnemyType::Tank => Enemy { enemy_type, health: 150, speed: 500, damage: 20 },
            EnemyType::Shooter => Enemy { enemy_type, health: 40, speed: 800, damage: 15 },
        }
    }
}

/// The enemy type drawn for a spawn roll in `0 .. 4`, as the spawner's
/// uniform draw selects it.
pub fn enemy_type_from_roll(roll: u32) -> (t: EnemyType)
    requires
        roll < 4,
    ensures
        t == (if roll == 0 {
            EnemyType::Basic
        } else if roll == 1 {
            EnemyType::Fast
        } else if roll == 2 {
            EnemyType::Tank
        } else {
            EnemyType::Shooter
        }),
{
    if roll == 0 {
        EnemyType::Basic
    } else if roll == 1 {
        EnemyType::Fast
    } else if roll == 2 {
        EnemyType::Tank
    } else {
        EnemyType::Shooter
    }
}

/// Draw the type of the next spawned enemy uniformly over the four
/// types, as the spawner does.
pub fn random_enemy_type() -> (t: EnemyType) {
    let roll = crate::rng::roll_below(4);
    enemy_type_from_roll(roll)
}

/// The position just outside the visible area where an enemy spawns:
/// `side` counts the edges clockwise from the top, `offset` is the
/// rolled coordinate along that edge, and `margin` is the distance
/// beyond the edge.
pub fn spawn_position(side: u32, offset: i64, half_width: i64, half_height: i64, margin: i64) -> (p:
    Pos)
    requires
        -1_000_000 <= offset <= 1_000_000,
        0 <= half_width <= 1_000_000,
        0 <= half_height <= 1_000_000,
        0 <= margin <= 1_000_000,
    ensures
        p == (if side == 0 {
            Pos { x: offset, y: (half_height + margin) as i64 }
        } else if side == 1 {
            Pos { x: (half_width + margin) as i64, y: offset }
        } else if side == 2 {
            Pos { x: offset, y: (-half_height - margin) as i64 }
        } else {
            Pos { x: (-half_width - margin) as i64, y: offset }
        }),
        p.wf(),
{
    if side == 0 {
        Pos { x: offset, y: half_height + margin }
    } else if side == 1 {
        Pos { x: half_width + margin, y: offset }
    } else if side == 2 {
        Pos { x: offset, y: -half_height - margin }
    } else {
        Pos { x: -half_width - margin, y: offset }
    }
}

} // verus!
