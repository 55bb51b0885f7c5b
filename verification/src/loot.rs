//! The loot spawner: drains the queue of enemies destroyed this tick
//! and, with one drop roll per destruction, spawns at most one pickup
//! at the defeated enemy's last position.  The weighted payload table
//! favors weapon grants, then stat upgrades, and a heal least.

use vstd::prelude::*;
use crate::geom::Pos;
use crate::pickup::{Pickup, PickupType, PICKUP_LIFETIME_MS};
use crate::weapon::WeaponType;
use crate::world::{PickupSlot, World};
use crate::rng::roll_below;

verus! {

/// Chance that a defeated enemy drops a pickup, in hundredths.
pub const DROP_CHANCE_PCT: u32 = 90;

/// The weighted payload table, indexed by a uniform roll in `0 ..= 100`:
/// weapon grants at the highest weight, stat upgrades in the middle,
/// the heal at the lowest.
pub open spec fn spec_pickup_from_roll(r: u32) -> PickupType {
    if r <= 20 {
        PickupType::Weapon(WeaponType::Pistol)
    } else if r <= 35 {
        PickupType::Weapon(WeaponType::Shotgun)
    } else if r <= 50 {
        PickupType::Weapon(WeaponType::MachineGun)
    } else if r <= 60 {
        PickupType::Weapon(WeaponType::RocketLauncher)
    } else if r <= 68 {
        PickupType::AreaAttack
    } else if r <= 76 {
        PickupType::CriticalHit
    } else if r <= 84 {
        PickupType::AttackSpeed
    } else if r <= 89 {
        PickupType::IncreasedDamage
    } else if r <= 93 {
        PickupType::DoubleShot
    } else if r <= 97 {
        PickupType::TripleShot
    } else {
        PickupType::HealthPack
    }
}

/// Look a payload up in the weighted table.
pub fn pickup_from_roll(r: u32) -> (t: PickupType)
    requires
        r <= 100,
    ensures
        t == spec_pickup_from_roll(r),
{
    if r <= 20 {
        PickupType::Weapon(WeaponType::Pistol)
    } else if r <= 35 {
        PickupType::Weapon(WeaponType::Shotgun)
    } else if r <= 50 {
        PickupType::Weapon(WeaponType::MachineGun)
    } else if r <= 60 {
        PickupType::Weapon(WeaponType::RocketLauncher)
    } else if r <= 68 {
        PickupType::AreaAttack
    } else if r <= 76 {
        PickupType::CriticalHit
    } else if r <= 84 {
        PickupType::AttackSpeed
    } else if r <= 89 {
        PickupType::IncreasedDamage
    } else if r <= 93 {
        PickupType::DoubleShot
    } else if r <= 97 {
        PickupType::TripleShot
    } else {
        PickupType::HealthPack
    }
}

/// What one destruction yields under a given pair of rolls: a payload
/// exactly when the drop roll falls below the drop chance, and nothing
/// otherwise.
pub open spec fn spec_loot_outcome(drop_roll: u32, table_roll: u32) -> Option<PickupType> {
    if drop_roll < DROP_CHANCE_PCT {
        Some(spec_pickup_from_roll(table_roll))
    } else {
        None
    }
}

/// Decide one drop from its two rolls: the drop roll against the fixed
/// chance, then the weighted table.
pub fn loot_decision(drop_roll: u32, table_roll: u32) -> (r: Option<PickupType>)
    requires
        table_roll <= 100,
    ensures
        r == spec_loot_outcome(drop_roll, table_roll),
{
    if drop_roll < DROP_CHANCE_PCT {
        Some(pickup_from_roll(table_roll))
    } else {
        None
    }
}

/// The pickup slots a drained queue yields under a given sequence of
/// roll pairs, one pair per queue entry, in order.
pub open spec fn spec_drop_slots(pending: Seq<Pos>, rolls: Seq<(u32, u32)>) -> Seq<PickupSlot>
    decreases pending.len(),
{
    if pending.len() == 0 {
        Seq::empty()
    } else {
        let prev = spec_drop_slots(pending.drop_last(), rolls.drop_last());
        match spec_loot_outcome(rolls.last().0, rolls.last().1) {
            Some(t) => prev.push(
                PickupSlot {
                    pickup: Pickup {
                        pickup_type: t,
                        lifetime_ms: PICKUP_LIFETIME_MS,
                        pos: pending.last(),
                    },
                    alive: true,
                },
            ),
            None => prev,
        }
    }
}

/// At most one pickup per destruction: a drained queue never yields
/// more pickups than it had entries, whatever the rolls were.
pub proof fn lemma_drop_slots_len(pending: Seq<Pos>, rolls: Seq<(u32, u32)>)
    ensures
        spec_drop_slots(pending, rolls).len() <= pending.len(),
    decreases pending.len(),
{
    if pending.len() > 0 {
        lemma_drop_slots_len(pending.drop_last(), rolls.drop_last());
    }
}

/// React to this tick's enemy destructions: the pending-drops queue is
/// drained whole, and for each entry exactly one drop decision is made,
/// appending at most one pickup at that entry's position.  There is one
/// decision per destruction: never none, never two.
pub fn spawn_enemy_drops(world: &mut World)
    requires
        old(world).wf(),
    ensures
        final(world).wf(),
        final(world).pending_drops@.len() == 0,
        exists|rolls: Seq<(u32, u32)>|
            {
                &&& rolls.len() == old(world).pending_drops@.len()
                &&& forall|k: int|
                    0 <= k < rolls.len() ==> (#[trigger] rolls[k]).0 < 100 && rolls[k].1 <= 100
                &&& final(world).pickups@ == old(world).pickups@ + spec_drop_slots(
                    old(world).pending_drops@,
                    rolls,
                )
            },
        final(world).player == old(world).player,
        final(world).enemies == old(world).enemies,
        final(world).obstacles == old(world).obstacles,
        final(world).projectiles == old(world).projectiles,
{
    let ghost pd0 = world.pending_drops@;
    let ghost ks0 = world.pickups@;
    let ghost mut rolls: Seq<(u32, u32)> = Seq::empty();
    let n = world.pending_drops.len();
    let mut i: usize = 0;
    while i < n
        invariant
            i <= n,
            n == pd0.len(),
            world.pending_drops@ == pd0,
            old(world).wf(),
            world.wf(),
            rolls.len() == i,
            forall|k: int|
                0 <= k < rolls.len() ==> (#[trigger] rolls[k]).0 < 100 && rolls[k].1 <= 100,
            world.pickups@ == ks0 + spec_drop_slots(pd0.subrange(0, i as int), rolls),
            world.player == old(world).player,
            world.enemies == old(world).enemies,
            world.obstacles == old(world).obstacles,
            world.projectiles == old(world).projectiles,
        decreases n - i,
    {
        let pos = world.pending_drops[i];
        let drop_roll = roll_below(100);
        let mut table_roll: u32 = 0;
        if drop_roll < DROP_CHANCE_PCT {
            table_roll = roll_below(101);
            let t = pickup_from_roll(table_roll);
            world.pickups.push(
                PickupSlot { pickup: Pickup::new(t, pos), alive: true },
            );
        }
        proof {
            let prev_rolls = rolls;
            rolls = rolls.push((drop_roll, table_roll));
            assert(rolls.drop_last() =~= prev_rolls);
            assert(pd0.subrange(0, (i + 1) as int).drop_last() =~= pd0.subrange(0, i as int));
            assert(pd0.subrange(0, (i + 1) as int).last() == pd0[i as int]);
            assert(world.pickups@ =~= ks0 + spec_drop_slots(
                pd0.subrange(0, (i + 1) as int),
                rolls,
            ));
        }
        i = i + 1;
    }
    world.pending_drops = Vec::new();
    proof {
        assert(pd0.subrange(0, n as int) =~= pd0);
        assert(final(world).pickups@ == old(world).pickups@ + spec_drop_slots(pd0, rolls));
    }
}

} // verus!
