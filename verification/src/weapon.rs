//! Weapons and projectiles: the closed weapon enumeration with its static
//! data table, the cadence gate, and the transient projectile effect.

use vstd::prelude::*;
use crate::geom::{Pos, Dir};

verus! {

/// Lifetime of a projectile after it is fired, in milliseconds.
pub const PROJECTILE_LIFETIME_MS: u32 = 2_000;

/// Largest projectile speed the world admits, in world units per second.
pub const SPEED_LIMIT: u32 = 100_000;

/// The closed family of ranged weapons.
#[derive(Debug, Clone, Copy, PartialEq, Eq, Structural)]
pub enum WeaponType {
    Pistol,
    Shotgun,
    MachineGun,
    RocketLauncher,
}

impl WeaponType {
    /// Base damage of one projectile, before multipliers.
    pub open spec fn spec_base_damage(self) -> u32 {
        match self {
            WeaponType::Pistol => 10,
            WeaponType::Shotgun => 12,
            WeaponType::MachineGun => 6,
            WeaponType::RocketLauncher => 40,
        }
    }

    /// Base cadence in hundredths of an action per second: the pistol's
    /// 200 is two shots each second.
    pub open spec fn spec_base_cadence_cs(self) -> u32 {
        match self {
            WeaponType::Pistol => 200,
            WeaponType::Shotgun => 100,
            WeaponType::MachineGun => 500,
            WeaponType::RocketLauncher => 80,
        }
    }

    /// Projectile travel speed in world units per second.
    pub open spec fn spec_projectile_speed(self) -> u32 {
        match self {
            WeaponType::Pistol => 5_000,
            WeaponType::Shotgun => 4_500,
            WeaponType::MachineGun => 6_000,
            WeaponType::RocketLauncher => 3_500,
        }
    }

    /// Collision radius of this weapon's projectile, in world units.
    pub open spec fn spec_projectile_radius(self) -> u32 {
        match self {
            WeaponType::Pistol => 50,
            WeaponType::Shotgun => 40,
            WeaponType::MachineGun => 30,
            WeaponType::RocketLauncher => 75,
        }
    }

    pub fn base_damage(self) -> (d: u32)
        ensures
            d == self.spec_base_damage(),
    {
        match self {
            WeaponType::Pistol => 10,
            WeaponType::Shotgun => 12,
            WeaponType::MachineGun => 6,
            WeaponType::RocketLauncher => 40,
        }
    }

    pub fn base_cadence_cs(self) -> (c: u32)
        ensures
            c == self.spec_base_cadence_cs(),
    {
        match self {
            WeaponType::Pistol => 200,
            WeaponType::Shotgun => 100,
            WeaponType::MachineGun => 500,
            WeaponType::RocketLauncher => 80,
        }
    }

    pub fn projectile_speed(self) -> (s: u32)
        ensures
            s == self.spec_projectile_speed(),
    {
        match self {
            WeaponType::Pistol => 5_000,
            WeaponType::Shotgun => 4_500,
            WeaponType::MachineGun => 6_000,
            WeaponType::RocketLauncher => 3_500,
        }
    }

    pub fn projectile_radius(self) -> (r: u32)
        ensures
            r == self.spec_projectile_radius(),
    {
        match self {
            WeaponType::Pistol => 50,
            WeaponType::Shotgun => 40,
            WeaponType::MachineGun => 30,
            WeaponType::RocketLauncher => 75,
        }
    }
}

/// A weapon wielded by the player: its tag, the stats resolved from the
/// table at construction, and the time of the last accepted action.
#[derive(Debug, Clone, Copy, PartialEq, Eq, Structural)]
pub struct Weapon {
    pub weapon_type: WeaponType,
    pub damage: u32,
    pub cadence_cs: u32,
    pub projectile_speed: u32,
    pub last_attack_ms: u64,
}

/// Cooldown between two accepted actions in milliseconds: the inverse of
/// the effective cadence `base x multiplier`, with truncating division.
pub open spec fn spec_cooldown_ms(cadence_cs: u32, cadence_mult_pct: u32) -> int {
    10_000_000int / (cadence_cs * cadence_mult_pct)
}

/// The cadence gate: an action at `now_ms` is accepted when at least the
/// cooldown has passed since the last accepted action.
pub open spec fn spec_can_attack(w: Weapon, now_ms: u64, cadence_mult_pct: u32) -> bool {
    w.last_attack_ms + spec_cooldown_ms(w.cadence_cs, cadence_mult_pct) <= now_ms
}

/// A fresh weapon of the given type: its stats from the table, no
/// action taken yet.
pub open spec fn spec_fresh_weapon(weapon_type: WeaponType) -> Weapon {
    Weapon {
        weapon_type,
        damage: weapon_type.spec_base_damage(),
        cadence_cs: weapon_type.spec_base_cadence_cs(),
        projectile_speed: weapon_type.spec_projectile_speed(),
        last_attack_ms: 0,
    }
}

impl Weapon {
    /// The stat fields agree with the weapon type's table entry.
    pub open spec fn wf(self) -> bool {
        &&& self.damage == self.weapon_type.spec_base_damage()
        &&& self.cadence_cs == self.weapon_type.spec_base_cadence_cs()
        &&& self.projectile_speed == self.weapon_type.spec_projectile_speed()
    }

    /// A fresh weapon of the given type, with its stats from the table
    /// and no action taken yet.
    pub fn new(weapon_type: WeaponType) -> (w: Weapon)
        ensures
            w == spec_fresh_weapon(weapon_type),
            w.weapon_type == weapon_type,
            w.last_attack_ms == 0,
            w.wf(),
    {
        Weapon {
            weapon_type,
            damage: weapon_type.base_damage(),
            cadence_cs: weapon_type.base_cadence_cs(),
            projectile_speed: weapon_type.projectile_speed(),
            last_attack_ms: 0,
        }
    }

    /// The cooldown this weapon imposes under the given cadence multiplier.
    pub fn cooldown_ms(&self, cadence_mult_pct: u32) -> (cd: u64)
        requires
            1 <= self.cadence_cs <= 10_000,
            100 <= cadence_mult_pct <= 300,
        ensures
            cd == spec_cooldown_ms(self.cadence_cs, cadence_mult_pct),
    {
        proof {
            assert(100 <= self.cadence_cs * cadence_mult_pct <= 3_000_000)
                by (nonlinear_arith)
                requires
                    1 <= self.cadence_cs <= 10_000,
                    100 <= cadence_mult_pct <= 300;
        }
        let effective: u32 = self.cadence_cs * cadence_mult_pct;
        (10_000_000 / effective) as u64
    }

    /// Whether an action is accepted at `now_ms`: true exactly when the
    /// interval since the last accepted action reaches the cooldown.
    pub fn can_attack(&self, now_ms: u64, cadence_mult_pct: u32) -> (ok: bool)
        requires
            1 <= self.cadence_cs <= 10_000,
            100 <= cadence_mult_pct <= 300,
        ensures
            ok == spec_can_attack(*self, now_ms, cadence_mult_pct),
    {
        let cd = self.cooldown_ms(cadence_mult_pct);
        if now_ms < self.last_attack_ms {
            false
        } else {
            now_ms - self.last_attack_ms >= cd
        }
    }
}

/// A projectile in flight: a transient effect carrying damage resolved
/// once at creation.
#[derive(Debug, Clone, Copy, PartialEq, Eq, Structural)]
pub struct Projectile {
    pub weapon_type: WeaponType,
    pub damage: u32,
    pub speed: u32,
    pub lifetime_ms: u32,
    pub pos: Pos,
    pub dir: Dir,
}

impl Projectile {
    pub open spec fn wf(self) -> bool {
        &&& self.pos.wf()
        &&& self.dir.wf()
        &&& self.speed <= SPEED_LIMIT
    }
}

} // verus!
