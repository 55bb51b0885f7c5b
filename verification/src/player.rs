//! The player actor: health, movement speed and the equipped weapon's
//! tag.  Health moves only through the explicit damage and heal
//! operations, and never leaves the range zero to the maximum.

use vstd::prelude::*;
use crate::weapon::WeaponType;

verus! {

/// Maximum (and starting) player health.
pub const PLAYER_MAX_HEALTH: u32 = 100;

/// Player movement speed in world units per second.
pub const PLAYER_SPEED: u32 = 1_500;

/// Collision radius of the player, in world units.
pub const PLAYER_RADIUS: u32 = 160;

/// The player actor.
#[derive(Debug, Clone, Copy, PartialEq, Eq, Structural)]
pub struct Player {
    pub health: u32,
    pub speed: u32,
    pub current_weapon: WeaponType,
}

impl Player {
    pub open spec fn wf(self) -> bool {
        &&& self.health <= PLAYER_MAX_HEALTH
        &&& self.speed == PLAYER_SPEED
    }

    /// A freshly spawned player: full health, base speed, the default
    /// weapon.
    pub fn new() -> (p: Player)
        ensures
            p.health == PLAYER_MAX_HEALTH,
            p.current_weapon == WeaponType::Pistol,
            p.wf(),
    {
        Player { health: PLAYER_MAX_HEALTH, speed: PLAYER_SPEED, current_weapon: WeaponType::Pistol }
    }

    /// Apply damage: health drops by the damage, clamped at zero.
    pub fn take_damage(&mut self, damage: u32)
        ensures
            final(self).health == if damage < old(self).health {
                old(self).health - damage
            } else {
                0
            },
            final(self).speed == old(self).speed,
            final(self).current_weapon == old(self).current_weapon,
    {
        if damage < self.health {
            self.health = self.health - damage;
        } else {
            self.health = 0;
        }
    }

    /// Apply an explicit heal: health grows by the amount, clamped at
    /// the maximum.  This is the only operation that raises health.
    pub fn heal(&mut self, amount: u32)
        ensures
            final(self).health == if old(self).health + amount <= PLAYER_MAX_HEALTH {
                old(self).health + amount
            } else {
                PLAYER_MAX_HEALTH as int
            },
            final(self).speed == old(self).speed,
            final(self).current_weapon == old(self).current_weapon,
    {
        if self.health <= PLAYER_MAX_HEALTH && amount <= PLAYER_MAX_HEALTH - self.health {
            self.health = self.health + amount;
        } else {
            self.health = PLAYER_MAX_HEALTH;
        }
    }
}

} // verus!
