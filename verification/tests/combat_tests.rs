use epic_shooter::combat::{
    handle_projectile_enemy_collision, handle_projectile_obstacle_damage, player_shooting,
    projectile_movement, resolve_damage, update_pickups,
};
use epic_shooter::enemy::{Enemy, EnemyType};
use epic_shooter::geom::{Dir, Pos};
use epic_shooter::obstacle::{Obstacle, ObstacleType};
use epic_shooter::pickup::{Pickup, PickupType};
use epic_shooter::progression::UpgradeKind;
use epic_shooter::weapon::{Projectile, Weapon, WeaponType};
use epic_shooter::world::{PickupSlot, ProjectileSlot, World};

fn world_with_player() -> World {
    let mut world = World::new();
    world.spawn_player(Pos { x: 0, y: 0 });
    world
}

fn plain_projectile(pos: Pos, damage: u32) -> ProjectileSlot {
    ProjectileSlot {
        projectile: Projectile {
            weapon_type: WeaponType::Pistol,
            damage,
            speed: 5_000,
            lifetime_ms: 2_000,
            pos,
            dir: Dir { x: 1_000, y: 0 },
        },
        alive: true,
    }
}

#[test]
fn base_weapon_fires_twice_in_one_second() {
    // Base weapon: damage 10, two shots per second.  Firing continuously
    // for one simulated second accepts exactly two actions of 10 damage.
    let mut world = world_with_player();
    let aim = Dir { x: 1_000, y: 0 };
    let mut accepted = 0;
    for step in 0..=10u64 {
        let before = world.projectiles.len();
        player_shooting(&mut world, step * 100, true, aim);
        if world.projectiles.len() > before {
            accepted += 1;
            assert_eq!(world.projectiles.len(), before + 1);
            assert_eq!(world.projectiles[before].projectile.damage, 10);
        }
    }
    assert_eq!(accepted, 2);
}

#[test]
fn cadence_gate_respects_attack_speed_multiplier() {
    let w = Weapon::new(WeaponType::Pistol);
    // Base cooldown is 500 ms; at a 1.3x cadence multiplier it is 384 ms.
    assert!(!w.can_attack(499, 100));
    assert!(w.can_attack(500, 100));
    assert!(!w.can_attack(383, 130));
    assert!(w.can_attack(384, 130));
}

#[test]
fn not_firing_spawns_nothing() {
    let mut world = world_with_player();
    player_shooting(&mut world, 1_000, false, Dir { x: 1_000, y: 0 });
    assert_eq!(world.projectiles.len(), 0);
}

#[test]
fn resolve_damage_applies_multiplier_and_crit() {
    assert_eq!(resolve_damage(10, 100, 0, 99), 10);
    assert_eq!(resolve_damage(10, 120, 0, 99), 12);
    assert_eq!(resolve_damage(10, 100, 50, 49), 20);
    assert_eq!(resolve_damage(10, 100, 50, 50), 10);
    assert_eq!(resolve_damage(40, 300, 50, 0), 240);
}

#[test]
fn double_shot_spawns_two_offset_projectiles() {
    let mut world = world_with_player();
    let mut pc = world.player.unwrap();
    pc.upgrades.apply(UpgradeKind::DoubleShot);
    world.player = Some(pc);
    player_shooting(&mut world, 1_000, true, Dir { x: 1_000, y: 0 });
    assert_eq!(world.projectiles.len(), 2);
    assert_eq!(world.projectiles[0].projectile.dir, Dir { x: 995, y: -100 });
    assert_eq!(world.projectiles[1].projectile.dir, Dir { x: 995, y: 100 });
}

#[test]
fn triple_shot_spawns_three_with_centerline() {
    let mut world = world_with_player();
    let mut pc = world.player.unwrap();
    pc.upgrades.apply(UpgradeKind::TripleShot);
    world.player = Some(pc);
    player_shooting(&mut world, 1_000, true, Dir { x: 1_000, y: 0 });
    assert_eq!(world.projectiles.len(), 3);
    assert_eq!(world.projectiles[0].projectile.dir, Dir { x: 980, y: -199 });
    assert_eq!(world.projectiles[1].projectile.dir, Dir { x: 1_000, y: 0 });
    assert_eq!(world.projectiles[2].projectile.dir, Dir { x: 980, y: 199 });
}

#[test]
fn shotgun_adds_six_pellets_at_reduced_damage() {
    let mut world = world_with_player();
    let mut pc = world.player.unwrap();
    pc.weapon = Weapon::new(WeaponType::Shotgun);
    pc.player.current_weapon = WeaponType::Shotgun;
    world.player = Some(pc);
    player_shooting(&mut world, 1_000, true, Dir { x: 1_000, y: 0 });
    assert_eq!(world.projectiles.len(), 7);
    assert_eq!(world.projectiles[0].projectile.damage, 12);
    for k in 1..7 {
        // Seven tenths of 12, truncated.
        assert_eq!(world.projectiles[k].projectile.damage, 8);
    }
}

#[test]
fn projectile_moves_and_expires() {
    let mut world = World::new();
    world.projectiles.push(plain_projectile(Pos { x: 0, y: 0 }, 10));
    projectile_movement(&mut world, 100);
    // 5000 units per second for 100 ms along the unit x direction.
    assert_eq!(world.projectiles[0].projectile.pos, Pos { x: 500, y: 0 });
    assert_eq!(world.projectiles[0].projectile.lifetime_ms, 1_900);
    assert!(world.projectiles[0].alive);
    projectile_movement(&mut world, 1_900);
    assert!(!world.projectiles[0].alive);
    assert_eq!(world.projectiles[0].projectile.lifetime_ms, 0);
}

#[test]
fn pickup_ages_and_expires_unclaimed() {
    let mut world = World::new();
    world.pickups.push(PickupSlot {
        pickup: Pickup::new(PickupType::HealthPack, Pos { x: 0, y: 0 }),
        alive: true,
    });
    update_pickups(&mut world, 1_000);
    assert!(world.pickups[0].alive);
    assert_eq!(world.pickups[0].pickup.lifetime_ms, 14_000);
    update_pickups(&mut world, 14_000);
    assert!(!world.pickups[0].alive);
}

#[test]
fn hit_needs_distance_strictly_below_radius_sum() {
    // Pistol projectile radius 50 plus enemy radius 160: hits below 210.
    let mut world = World::new();
    world.projectiles.push(plain_projectile(Pos { x: 0, y: 0 }, 10));
    world.spawn_enemy(Enemy::new(EnemyType::Basic), Pos { x: 210, y: 0 });
    handle_projectile_enemy_collision(&mut world);
    assert_eq!(world.enemies[0].enemy.health, 50);
    assert!(world.projectiles[0].alive);

    let mut close = World::new();
    close.projectiles.push(plain_projectile(Pos { x: 0, y: 0 }, 10));
    close.spawn_enemy(Enemy::new(EnemyType::Basic), Pos { x: 209, y: 0 });
    handle_projectile_enemy_collision(&mut close);
    assert_eq!(close.enemies[0].enemy.health, 40);
    assert!(!close.projectiles[0].alive);
}

#[test]
fn projectile_stops_on_first_enemy() {
    let mut world = World::new();
    world.projectiles.push(plain_projectile(Pos { x: 0, y: 0 }, 10));
    world.spawn_enemy(Enemy::new(EnemyType::Basic), Pos { x: 100, y: 0 });
    world.spawn_enemy(Enemy::new(EnemyType::Basic), Pos { x: 150, y: 0 });
    handle_projectile_enemy_collision(&mut world);
    assert_eq!(world.enemies[0].enemy.health, 40);
    assert_eq!(world.enemies[1].enemy.health, 50);
    assert!(!world.projectiles[0].alive);
}

#[test]
fn pass_through_obstacle_damaged_projectile_continues() {
    // A bush takes the hit but the projectile keeps flying and can hit
    // a second target in the same pass.
    let mut world = World::new();
    world.projectiles.push(plain_projectile(Pos { x: 0, y: 0 }, 10));
    world.spawn_obstacle(Obstacle::new(ObstacleType::Bush), Pos { x: 0, y: 0 });
    world.spawn_obstacle(Obstacle::new(ObstacleType::Bush), Pos { x: 100, y: 0 });
    handle_projectile_obstacle_damage(&mut world);
    assert_eq!(world.obstacles[0].obstacle.health, 10);
    assert_eq!(world.obstacles[1].obstacle.health, 10);
    assert!(world.projectiles[0].alive);
}

#[test]
fn crate_stops_projectile_and_takes_damage() {
    let mut world = World::new();
    world.projectiles.push(plain_projectile(Pos { x: 0, y: 0 }, 10));
    world.spawn_obstacle(Obstacle::new(ObstacleType::Crate), Pos { x: 0, y: 0 });
    world.spawn_obstacle(Obstacle::new(ObstacleType::Crate), Pos { x: 100, y: 0 });
    handle_projectile_obstacle_damage(&mut world);
    assert_eq!(world.obstacles[0].obstacle.health, 40);
    assert_eq!(world.obstacles[1].obstacle.health, 50);
    assert!(!world.projectiles[0].alive);
}

#[test]
fn rock_is_indestructible_but_stops_projectiles() {
    let mut world = World::new();
    world.projectiles.push(plain_projectile(Pos { x: 0, y: 0 }, 10));
    world.spawn_obstacle(Obstacle::new(ObstacleType::Rock), Pos { x: 0, y: 0 });
    handle_projectile_obstacle_damage(&mut world);
    assert_eq!(world.obstacles[0].obstacle.health, 100);
    assert!(world.obstacles[0].alive);
    assert!(!world.projectiles[0].alive);
}

#[test]
fn killing_hit_queues_exactly_one_drop() {
    let mut world = World::new();
    world.projectiles.push(plain_projectile(Pos { x: 0, y: 0 }, 40));
    world.spawn_enemy(Enemy::new(EnemyType::Fast), Pos { x: 50, y: 0 });
    handle_projectile_enemy_collision(&mut world);
    assert!(!world.enemies[0].alive);
    assert_eq!(world.enemies[0].enemy.health, 0);
    assert_eq!(world.pending_drops.len(), 1);
    assert_eq!(world.pending_drops[0], Pos { x: 50, y: 0 });
}
