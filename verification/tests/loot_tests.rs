use epic_shooter::geom::Pos;
use epic_shooter::loot::{loot_decision, pickup_from_roll, spawn_enemy_drops};
use epic_shooter::pickup::PickupType;
use epic_shooter::weapon::WeaponType;
use epic_shooter::world::World;

#[test]
fn payload_table_boundaries() {
    assert_eq!(pickup_from_roll(0), PickupType::Weapon(WeaponType::Pistol));
    assert_eq!(pickup_from_roll(20), PickupType::Weapon(WeaponType::Pistol));
    assert_eq!(pickup_from_roll(21), PickupType::Weapon(WeaponType::Shotgun));
    assert_eq!(pickup_from_roll(35), PickupType::Weapon(WeaponType::Shotgun));
    assert_eq!(pickup_from_roll(36), PickupType::Weapon(WeaponType::MachineGun));
    assert_eq!(pickup_from_roll(50), PickupType::Weapon(WeaponType::MachineGun));
    assert_eq!(pickup_from_roll(51), PickupType::Weapon(WeaponType::RocketLauncher));
    assert_eq!(pickup_from_roll(60), PickupType::Weapon(WeaponType::RocketLauncher));
    assert_eq!(pickup_from_roll(61), PickupType::AreaAttack);
    assert_eq!(pickup_from_roll(68), PickupType::AreaAttack);
    assert_eq!(pickup_from_roll(69), PickupType::CriticalHit);
    assert_eq!(pickup_from_roll(76), PickupType::CriticalHit);
    assert_eq!(pickup_from_roll(77), PickupType::AttackSpeed);
    assert_eq!(pickup_from_roll(84), PickupType::AttackSpeed);
    assert_eq!(pickup_from_roll(85), PickupType::IncreasedDamage);
    assert_eq!(pickup_from_roll(89), PickupType::IncreasedDamage);
    assert_eq!(pickup_from_roll(90), PickupType::DoubleShot);
    assert_eq!(pickup_from_roll(93), PickupType::DoubleShot);
    assert_eq!(pickup_from_roll(94), PickupType::TripleShot);
    assert_eq!(pickup_from_roll(97), PickupType::TripleShot);
    assert_eq!(pickup_from_roll(98), PickupType::HealthPack);
    assert_eq!(pickup_from_roll(100), PickupType::HealthPack);
}

#[test]
fn drop_decision_follows_drop_chance() {
    assert_eq!(loot_decision(0, 0), Some(PickupType::Weapon(WeaponType::Pistol)));
    assert_eq!(loot_decision(89, 100), Some(PickupType::HealthPack));
    assert_eq!(loot_decision(90, 0), None);
    assert_eq!(loot_decision(99, 0), None);
}

#[test]
fn drops_drain_queue_and_spawn_at_death_position() {
    let mut world = World::new();
    world.pending_drops.push(Pos { x: 42, y: -7 });
    spawn_enemy_drops(&mut world);
    assert_eq!(world.pending_drops.len(), 0);
    assert!(world.pickups.len() <= 1);
    if let Some(slot) = world.pickups.first() {
        assert!(slot.alive);
        assert_eq!(slot.pickup.pos, Pos { x: 42, y: -7 });
        assert_eq!(slot.pickup.lifetime_ms, 15_000);
    }
}

#[test]
fn observed_drop_rate_matches_drop_chance() {
    // One roll per destruction at a drop chance of nine tenths: over
    // ten thousand destructions the observed rate stays within a very
    // wide statistical margin of the chance.  This fails if the drop
    // roll were not uniform in its stated range.
    let mut world = World::new();
    for _ in 0..10_000 {
        world.pending_drops.push(Pos { x: 0, y: 0 });
    }
    spawn_enemy_drops(&mut world);
    assert_eq!(world.pending_drops.len(), 0);
    let dropped = world.pickups.len();
    assert!(dropped >= 8_700, "drop rate far below the drop chance: {}", dropped);
    assert!(dropped <= 9_300, "drop rate far above the drop chance: {}", dropped);
}

#[test]
fn empty_queue_yields_no_pickups() {
    let mut world = World::new();
    spawn_enemy_drops(&mut world);
    assert_eq!(world.pickups.len(), 0);
    assert_eq!(world.pending_drops.len(), 0);
}
