//! The progression tracker: per-player upgrade accumulators consulted by
//! the combat resolver on every action.  Each accumulator is clamped to a
//! documented cap, and the two multi-shot modes are mutually exclusive.

use vstd::prelude::*;

verus! {

/// Cap on the critical-hit chance, in hundredths (one half).
pub const CRIT_CAP_PCT: u32 = 50;

/// Step one critical-hit upgrade adds, in hundredths.
pub const CRIT_STEP_PCT: u32 = 10;

/// Cap on the cadence multiplier, in hundredths (three times base).
pub const CADENCE_CAP_PCT: u32 = 300;

/// Step one attack-speed upgrade adds, in hundredths.
pub const CADENCE_STEP_PCT: u32 = 30;

/// Cap on the damage multiplier, in hundredths (three times base).
pub const DAMAGE_CAP_PCT: u32 = 300;

/// Step one damage upgrade adds, in hundredths.
pub const DAMAGE_STEP_PCT: u32 = 20;

/// The multi-shot mode: one action spawns one, two or three effects.
/// Double and triple are mutually exclusive; acquiring one clears the
/// other.
#[derive(Debug, Clone, Copy, PartialEq, Eq, Structural)]
pub enum Multishot {
    Single,
    Double,
    Triple,
}

/// A named stat upgrade a pickup can grant.
#[derive(Debug, Clone, Copy, PartialEq, Eq, Structural)]
pub enum UpgradeKind {
    AreaAttack,
    CriticalHit,
    AttackSpeed,
    IncreasedDamage,
    DoubleShot,
    TripleShot,
}

/// The per-player upgrade record.  Multipliers are percentages: 100 is
/// the neutral value.
#[derive(Debug, Clone, Copy, PartialEq, Eq, Structural)]
pub struct WeaponUpgrades {
    pub area_attack: bool,
    pub critical_hit_pct: u32,
    pub attack_speed_pct: u32,
    pub damage_pct: u32,
    pub multishot: Multishot,
}

/// What applying one upgrade does to the record: exactly one accumulator
/// moves, clamped to its cap.
pub open spec fn spec_apply(u: WeaponUpgrades, kind: UpgradeKind) -> WeaponUpgrades {
    match kind {
        UpgradeKind::AreaAttack => WeaponUpgrades { area_attack: true, ..u },
        UpgradeKind::CriticalHit => WeaponUpgrades {
            critical_hit_pct: if u.critical_hit_pct + CRIT_STEP_PCT <= CRIT_CAP_PCT {
                (u.critical_hit_pct + CRIT_STEP_PCT) as u32
            } else {
                CRIT_CAP_PCT
            },
            ..u
        },
        UpgradeKind::AttackSpeed => WeaponUpgrades {
            attack_speed_pct: if u.attack_speed_pct + CADENCE_STEP_PCT <= CADENCE_CAP_PCT {
                (u.attack_speed_pct + CADENCE_STEP_PCT) as u32
            } else {
                CADENCE_CAP_PCT
            },
            ..u
        },
        UpgradeKind::IncreasedDamage => WeaponUpgrades {
            damage_pct: if u.damage_pct + DAMAGE_STEP_PCT <= DAMAGE_CAP_PCT {
                (u.damage_pct + DAMAGE_STEP_PCT) as u32
            } else {
                DAMAGE_CAP_PCT
            },
            ..u
        },
        UpgradeKind::DoubleShot => WeaponUpgrades { multishot: Multishot::Double, ..u },
        UpgradeKind::TripleShot => WeaponUpgrades { multishot: Multishot::Triple, ..u },
    }
}

impl WeaponUpgrades {
    /// Every accumulator sits within its documented bounds.
    pub open spec fn wf(self) -> bool {
        &&& self.critical_hit_pct <= CRIT_CAP_PCT
        &&& 100 <= self.attack_speed_pct <= CADENCE_CAP_PCT
        &&& 100 <= self.damage_pct <= DAMAGE_CAP_PCT
    }

    /// The neutral record: no flag, no crit chance, both multipliers at
    /// their base, single shot.
    pub fn new() -> (u: WeaponUpgrades)
        ensures
            u.area_attack == false,
            u.critical_hit_pct == 0,
            u.attack_speed_pct == 100,
            u.damage_pct == 100,
            u.multishot == Multishot::Single,
            u.wf(),
    {
        WeaponUpgrades {
            area_attack: false,
            critical_hit_pct: 0,
            attack_speed_pct: 100,
            damage_pct: 100,
            multishot: Multishot::Single,
        }
    }

    /// The current effective modifiers, for the combat resolver to
    /// consult on every action: a pure read of the whole record.
    pub fn effective_modifiers(&self) -> (r: WeaponUpgrades)
        ensures
            r == *self,
    {
        *self
    }

    /// Apply one upgrade.  Never fails: an accumulator at its cap stays
    /// there.
    pub fn apply(&mut self, kind: UpgradeKind)
        ensures
            *final(self) == spec_apply(*old(self), kind),
    {
        match kind {
            UpgradeKind::AreaAttack => {
                self.area_attack = true;
            },
            UpgradeKind::CriticalHit => {
                if self.critical_hit_pct <= CRIT_CAP_PCT - CRIT_STEP_PCT {
                    self.critical_hit_pct = self.critical_hit_pct + CRIT_STEP_PCT;
                } else {
                    self.critical_hit_pct = CRIT_CAP_PCT;
                }
            },
            UpgradeKind::AttackSpeed => {
                if self.attack_speed_pct <= CADENCE_CAP_PCT - CADENCE_STEP_PCT {
                    self.attack_speed_pct = self.attack_speed_pct + CADENCE_STEP_PCT;
                } else {
                    self.attack_speed_pct = CADENCE_CAP_PCT;
                }
            },
            UpgradeKind::IncreasedDamage => {
                if self.damage_pct <= DAMAGE_CAP_PCT - DAMAGE_STEP_PCT {
                    self.damage_pct = self.damage_pct + DAMAGE_STEP_PCT;
                } else {
                    self.damage_pct = DAMAGE_CAP_PCT;
                }
            },
            UpgradeKind::DoubleShot => {
                self.multishot = Multishot::Double;
            },
            UpgradeKind::TripleShot => {
                self.multishot = Multishot::Triple;
            },
        }
    }
}

/// The record after a whole sequence of upgrades, applied left to right.
pub open spec fn spec_apply_all(u: WeaponUpgrades, kinds: Seq<UpgradeKind>) -> WeaponUpgrades
    decreases kinds.len(),
{
    if kinds.len() == 0 {
        u
    } else {
        spec_apply_all(spec_apply(u, kinds[0]), kinds.skip(1))
    }
}

/// Applying any one upgrade keeps every accumulator within its bounds:
/// in particular no upgrade pushes the damage multiplier past its cap.
pub proof fn lemma_apply_preserves_wf(u: WeaponUpgrades, kind: UpgradeKind)
    requires
        u.wf(),
    ensures
        spec_apply(u, kind).wf(),
        spec_apply(u, kind).damage_pct <= DAMAGE_CAP_PCT,
{
}

/// Applying any sequence of upgrades, however long, keeps every
/// accumulator within its bounds: repeated damage-multiplier upgrades
/// never push the multiplier past its cap, nor attack speed or critical
/// chance past theirs.
pub proof fn lemma_apply_all_clamped(u: WeaponUpgrades, kinds: Seq<UpgradeKind>)
    requires
        u.wf(),
    ensures
        spec_apply_all(u, kinds).wf(),
        spec_apply_all(u, kinds).damage_pct <= DAMAGE_CAP_PCT,
    decreases kinds.len(),
{
    if kinds.len() > 0 {
        lemma_apply_preserves_wf(u, kinds[0]);
        lemma_apply_all_clamped(spec_apply(u, kinds[0]), kinds.skip(1));
    }
}

/// The two multi-shot modes are mutually exclusive: whatever the record
/// held, acquiring triple-shot after double-shot leaves only triple-shot
/// set, and the other way round; the other accumulators are untouched.
pub proof fn lemma_multishot_exclusive(u: WeaponUpgrades)
    ensures
        spec_apply(spec_apply(u, UpgradeKind::DoubleShot), UpgradeKind::TripleShot).multishot
            == Multishot::Triple,
        spec_apply(spec_apply(u, UpgradeKind::TripleShot), UpgradeKind::DoubleShot).multishot
            == Multishot::Double,
        spec_apply(spec_apply(u, UpgradeKind::DoubleShot), UpgradeKind::TripleShot)
            == (WeaponUpgrades { multishot: Multishot::Triple, ..u }),
        spec_apply(spec_apply(u, UpgradeKind::TripleShot), UpgradeKind::DoubleShot)
            == (WeaponUpgrades { multishot: Multishot::Double, ..u }),
{
}

} // verus!
