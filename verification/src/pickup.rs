//! Pickups: the payloads a defeated enemy can drop and the transient
//! entity that carries one until it is collected or expires.

use vstd::prelude::*;
use crate::geom::Pos;
use crate::weapon::WeaponType;
use crate::progression::UpgradeKind;

verus! {

/// How long a pickup stays in the world unclaimed, in milliseconds.
pub const PICKUP_LIFETIME_MS: u32 = 15_000;

/// Collision radius of a pickup, in world units.
pub const PICKUP_RADIUS: u32 = 100;

/// Health a health pack restores.
pub const HEALTH_PACK_HEAL: u32 = 25;

/// Health a stamina boost restores.
pub const STAMINA_BOOST_HEAL: u32 = 15;

/// Health an armor boost restores.
pub const ARMOR_BOOST_HEAL: u32 = 20;

/// The payload of a pickup: a weapon grant, a named stat upgrade, or a
/// heal.
#[derive(Debug, Clone, Copy, PartialEq, Eq, Structural)]
pub enum PickupType {
    Weapon(WeaponType),
    AreaAttack,
    CriticalHit,
    AttackSpeed,
    IncreasedDamage,
    DoubleShot,
    TripleShot,
    HealthPack,
    StaminaBoost,
    ArmorBoost,
}

impl PickupType {
    /// The stat upgrade this payload grants, if it grants one.
    pub open spec fn spec_upgrade(self) -> Option<UpgradeKind> {
        match self {
            PickupType::AreaAttack => Some(UpgradeKind::AreaAttack),
            PickupType::CriticalHit => Some(UpgradeKind::CriticalHit),
            PickupType::AttackSpeed => Some(UpgradeKind::AttackSpeed),
            PickupType::IncreasedDamage => Some(UpgradeKind::IncreasedDamage),
            PickupType::DoubleShot => Some(UpgradeKind::DoubleShot),
            PickupType::TripleShot => Some(UpgradeKind::TripleShot),
            _ => None,
        }
    }

    /// The health this payload restores, if it is a heal.
    pub open spec fn spec_heal(self) -> u32 {
        match self {
            PickupType::HealthPack => HEALTH_PACK_HEAL,
            PickupType::StaminaBoost => STAMINA_BOOST_HEAL,
            PickupType::ArmorBoost => ARMOR_BOOST_HEAL,
            _ => 0,
        }
    }
}

/// A pickup waiting in the world at a defeated enemy's last position.
#[derive(Debug, Clone, Copy, PartialEq, Eq, Structural)]
pub struct Pickup {
    pub pickup_type: PickupType,
    pub lifetime_ms: u32,
    pub pos: Pos,
}

impl Pickup {
    pub open spec fn wf(self) -> bool {
        self.pos.wf()
    }

    /// A fresh pickup of the given payload at the given position, with
    /// the fixed lifetime.
    pub fn new(pickup_type: PickupType, pos: Pos) -> (p: Pickup)
        requires
            pos.wf(),
        ensures
            p.pickup_type == pickup_type,
            p.lifetime_ms == PICKUP_LIFETIME_MS,
            p.pos == pos,
            p.wf(),
    {
        Pickup { pickup_type, lifetime_ms: PICKUP_LIFETIME_MS, pos }
    }
}

} // verus!
