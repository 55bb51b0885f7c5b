//! Obstacles: static footprints that may be destructible, and the one
//! pass-through type that ranged effects damage without stopping.

use vstd::prelude::*;

verus! {

/// Width of an obstacle's square footprint, in world units.
pub const OBSTACLE_WIDTH: u32 = 320;

/// The closed family of obstacles.
#[derive(Debug, Clone, Copy, PartialEq, Eq, Structural)]
pub enum ObstacleType {
    Rock,
    Crate,
    Bush,
}

impl ObstacleType {
    /// Base (and maximum) health of a fresh obstacle of this type.
    pub open spec fn spec_base_health(self) -> u32 {
        match self {
            ObstacleType::Rock => 100,
            ObstacleType::Crate => 50,
            ObstacleType::Bush => 20,
        }
    }

    /// Rocks are indestructible; crates and bushes can be destroyed.
    pub open spec fn spec_is_destructible(self) -> bool {
        match self {
            ObstacleType::Rock => false,
            ObstacleType::Crate => true,
            ObstacleType::Bush => true,
        }
    }

    /// A projectile that hits a pass-through obstacle damages it but
    /// keeps flying; only bushes are pass-through.
    pub open spec fn spec_is_pass_through(self) -> bool {
        self == ObstacleType::Bush
    }

    pub fn is_pass_through(self) -> (r: bool)
        ensures
            r == self.spec_is_pass_through(),
    {
        match self {
            ObstacleType::Bush => true,
            _ => false,
        }
    }
}

/// A static obstacle with its current and maximum health.
#[derive(Debug, Clone, Copy, PartialEq, Eq, Structural)]
pub struct Obstacle {
    pub obstacle_type: ObstacleType,
    pub half_width: u32,
    pub health: u32,
    pub max_health: u32,
    pub is_destructible: bool,
}

/// What one application of damage does to an obstacle: nothing to an
/// indestructible one; otherwise health drops by the damage, clamped at
/// zero.
pub open spec fn spec_obstacle_damage(o: Obstacle, damage: u32) -> Obstacle {
    if !o.is_destructible {
        o
    } else if damage < o.health {
        Obstacle { health: (o.health - damage) as u32, ..o }
    } else {
        Obstacle { health: 0, ..o }
    }
}

impl Obstacle {
    /// The fields agree with the type's table entry and health never
    /// exceeds the maximum.
    pub open spec fn wf(self) -> bool {
        &&& self.health <= self.max_health
        &&& self.max_health == self.obstacle_type.spec_base_health()
        &&& self.is_destructible == self.obstacle_type.spec_is_destructible()
        &&& self.half_width == OBSTACLE_WIDTH / 2
    }

    /// A fresh obstacle of the given type, at full health.
    pub fn new(obstacle_type: ObstacleType) -> (o: Obstacle)
        ensures
            o.obstacle_type == obstacle_type,
            o.health == obstacle_type.spec_base_health(),
            o.wf(),
    {
        let health: u32 = match obstacle_type {
            ObstacleType::Rock => 100,
            ObstacleType::Crate => 50,
            ObstacleType::Bush => 20,
        };
        let is_destructible: bool = match obstacle_type {
            ObstacleType::Rock => false,
            ObstacleType::Crate => true,
            ObstacleType::Bush => true,
        };
        Obstacle {
            obstacle_type,
            half_width: OBSTACLE_WIDTH / 2,
            health,
            max_health: health,
            is_destructible,
        }
    }

    /// Apply damage.  An indestructible obstacle is untouched and the
    /// call returns false; otherwise health drops, clamped at zero, and
    /// the call returns whether the obstacle is now destroyed.
    pub fn take_damage(&mut self, damage: u32) -> (destroyed: bool)
        ensures
            *final(self) == spec_obstacle_damage(*old(self), damage),
            destroyed == (old(self).is_destructible && final(self).health == 0),
            final(self).health <= old(self).health,
    {
        if !self.is_destructible {
            return false;
        }
        if damage < self.health {
            self.health = self.health - damage;
        } else {
            self.health = 0;
        }
        self.health == 0
    }
}

} // verus!
