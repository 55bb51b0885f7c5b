use epic_shooter::progression::{Multishot, UpgradeKind, WeaponUpgrades};

#[test]
fn upgrades_start_neutral() {
    let u = WeaponUpgrades::new();
    assert!(!u.area_attack);
    assert_eq!(u.critical_hit_pct, 0);
    assert_eq!(u.attack_speed_pct, 100);
    assert_eq!(u.damage_pct, 100);
    assert_eq!(u.multishot, Multishot::Single);
}

#[test]
fn damage_upgrade_steps_then_clamps() {
    let mut u = WeaponUpgrades::new();
    u.apply(UpgradeKind::IncreasedDamage);
    assert_eq!(u.damage_pct, 120);
    u.apply(UpgradeKind::IncreasedDamage);
    assert_eq!(u.damage_pct, 140);
    for _ in 0..50 {
        u.apply(UpgradeKind::IncreasedDamage);
    }
    assert_eq!(u.damage_pct, 300);
}

#[test]
fn attack_speed_upgrade_steps_then_clamps() {
    let mut u = WeaponUpgrades::new();
    u.apply(UpgradeKind::AttackSpeed);
    assert_eq!(u.attack_speed_pct, 130);
    for _ in 0..50 {
        u.apply(UpgradeKind::AttackSpeed);
    }
    assert_eq!(u.attack_speed_pct, 300);
}

#[test]
fn crit_upgrade_steps_then_clamps() {
    let mut u = WeaponUpgrades::new();
    u.apply(UpgradeKind::CriticalHit);
    assert_eq!(u.critical_hit_pct, 10);
    for _ in 0..20 {
        u.apply(UpgradeKind::CriticalHit);
    }
    assert_eq!(u.critical_hit_pct, 50);
}

#[test]
fn area_attack_flag_sets() {
    let mut u = WeaponUpgrades::new();
    u.apply(UpgradeKind::AreaAttack);
    assert!(u.area_attack);
    u.apply(UpgradeKind::AreaAttack);
    assert!(u.area_attack);
}

#[test]
fn multishot_exclusive_double_then_triple() {
    let mut u = WeaponUpgrades::new();
    u.apply(UpgradeKind::DoubleShot);
    assert_eq!(u.multishot, Multishot::Double);
    u.apply(UpgradeKind::TripleShot);
    assert_eq!(u.multishot, Multishot::Triple);
}

#[test]
fn multishot_exclusive_triple_then_double() {
    let mut u = WeaponUpgrades::new();
    u.apply(UpgradeKind::TripleShot);
    assert_eq!(u.multishot, Multishot::Triple);
    u.apply(UpgradeKind::DoubleShot);
    assert_eq!(u.multishot, Multishot::Double);
}

#[test]
fn effective_modifiers_is_a_pure_read() {
    let mut u = WeaponUpgrades::new();
    u.apply(UpgradeKind::IncreasedDamage);
    u.apply(UpgradeKind::DoubleShot);
    let m = u.effective_modifiers();
    assert_eq!(m, u);
    assert_eq!(m.damage_pct, 120);
    assert_eq!(m.multishot, Multishot::Double);
}

#[test]
fn upgrades_leave_other_accumulators_alone() {
    let mut u = WeaponUpgrades::new();
    u.apply(UpgradeKind::IncreasedDamage);
    u.apply(UpgradeKind::TripleShot);
    assert_eq!(u.damage_pct, 120);
    assert_eq!(u.attack_speed_pct, 100);
    assert_eq!(u.critical_hit_pct, 0);
    assert!(!u.area_attack);
    assert_eq!(u.multishot, Multishot::Triple);
}
