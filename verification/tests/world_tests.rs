use epic_shooter::enemy::{Enemy, EnemyType};
use epic_shooter::geom::{Dir, Pos};
use epic_shooter::obstacle::{Obstacle, ObstacleType};
use epic_shooter::weapon::WeaponType;
use epic_shooter::world::World;

#[test]
fn enemy_table_matches_types() {
    let basic = Enemy::new(EnemyType::Basic);
    assert_eq!((basic.health, basic.speed, basic.damage), (50, 1_000, 10));
    let fast = Enemy::new(EnemyType::Fast);
    assert_eq!((fast.health, fast.speed, fast.damage), (30, 1_500, 5));
    let tank = Enemy::new(EnemyType::Tank);
    assert_eq!((tank.health, tank.speed, tank.damage), (150, 500, 20));
    let shooter = Enemy::new(EnemyType::Shooter);
    assert_eq!((shooter.health, shooter.speed, shooter.damage), (40, 800, 15));
}

#[test]
fn obstacle_table_matches_types() {
    let rock = Obstacle::new(ObstacleType::Rock);
    assert_eq!(rock.health, 100);
    assert!(!rock.is_destructible);
    let crate_box = Obstacle::new(ObstacleType::Crate);
    assert_eq!(crate_box.health, 50);
    assert!(crate_box.is_destructible);
    let bush = Obstacle::new(ObstacleType::Bush);
    assert_eq!(bush.health, 20);
    assert!(bush.is_destructible);
}

#[test]
fn indestructible_obstacle_ignores_damage() {
    let mut rock = Obstacle::new(ObstacleType::Rock);
    assert!(!rock.take_damage(1_000));
    assert_eq!(rock.health, 100);
}

#[test]
fn destructible_obstacle_clamps_at_zero() {
    let mut bush = Obstacle::new(ObstacleType::Bush);
    assert!(!bush.take_damage(10));
    assert_eq!(bush.health, 10);
    assert!(bush.take_damage(25));
    assert_eq!(bush.health, 0);
}

#[test]
fn enemy_destroyed_exactly_once() {
    // Two hits of 20 against 30 health: the hit that clamps health to
    // zero destroys the enemy, and any further hit is a no-op against a
    // slot that no longer exists.
    let mut world = World::new();
    world.spawn_enemy(Enemy::new(EnemyType::Fast), Pos { x: 7, y: -3 });
    let first = world.damage_enemy(0, 20);
    assert!(!first);
    assert_eq!(world.enemies[0].enemy.health, 10);
    assert!(world.enemies[0].alive);
    assert_eq!(world.pending_drops.len(), 0);

    let second = world.damage_enemy(0, 20);
    assert!(second);
    assert_eq!(world.enemies[0].enemy.health, 0);
    assert!(!world.enemies[0].alive);
    assert_eq!(world.pending_drops.len(), 1);
    assert_eq!(world.pending_drops[0], Pos { x: 7, y: -3 });

    let third = world.damage_enemy(0, 20);
    assert!(!third);
    assert_eq!(world.pending_drops.len(), 1);
    assert!(!world.enemies[0].alive);
}

#[test]
fn overkill_hit_destroys_on_first_hit() {
    let mut world = World::new();
    world.spawn_enemy(Enemy::new(EnemyType::Fast), Pos { x: 0, y: 0 });
    assert!(world.damage_enemy(0, 200));
    assert!(!world.enemies[0].alive);
    assert!(!world.damage_enemy(0, 200));
    assert_eq!(world.pending_drops.len(), 1);
}

#[test]
fn destroyed_obstacle_slot_ignores_further_hits() {
    let mut world = World::new();
    world.spawn_obstacle(Obstacle::new(ObstacleType::Bush), Pos { x: 0, y: 0 });
    assert!(world.damage_obstacle(0, 25));
    assert!(!world.obstacles[0].alive);
    assert_eq!(world.obstacles[0].obstacle.health, 0);
    assert!(!world.damage_obstacle(0, 25));
    assert_eq!(world.obstacles[0].obstacle.health, 0);
    // Obstacles never enter the loot queue.
    assert_eq!(world.pending_drops.len(), 0);
}

#[test]
fn spawn_player_gives_fresh_defaults() {
    let mut world = World::new();
    world.spawn_player(Pos { x: 5, y: 9 });
    let pc = world.player.unwrap();
    assert_eq!(pc.player.health, 100);
    assert_eq!(pc.player.current_weapon, WeaponType::Pistol);
    assert_eq!(pc.weapon.damage, 10);
    assert_eq!(pc.weapon.cadence_cs, 200);
    assert_eq!(pc.weapon.last_attack_ms, 0);
    assert_eq!(pc.upgrades.damage_pct, 100);
    assert_eq!(pc.pos, Pos { x: 5, y: 9 });
}

#[test]
fn clear_transient_keeps_enemies_and_obstacles() {
    let mut world = World::new();
    world.spawn_player(Pos { x: 0, y: 0 });
    world.spawn_enemy(Enemy::new(EnemyType::Basic), Pos { x: 100, y: 0 });
    world.spawn_obstacle(Obstacle::new(ObstacleType::Rock), Pos { x: 200, y: 0 });
    world.pending_drops.push(Pos { x: 1, y: 1 });
    world.clear_transient();
    assert!(world.player.is_none());
    assert_eq!(world.projectiles.len(), 0);
    assert_eq!(world.pickups.len(), 0);
    assert_eq!(world.pending_drops.len(), 0);
    assert_eq!(world.enemies.len(), 1);
    assert_eq!(world.obstacles.len(), 1);
}

#[test]
fn player_movement_advances_scaled_position() {
    let mut world = World::new();
    world.spawn_player(Pos { x: 0, y: 0 });
    // Speed 1500 units per second, one second along the unit x direction.
    world.player_movement(Dir { x: 1_000, y: 0 }, 1_000);
    assert_eq!(world.player.unwrap().pos, Pos { x: 1_500, y: 0 });
}

#[test]
fn enemy_movement_skips_destroyed_slots() {
    let mut world = World::new();
    world.spawn_enemy(Enemy::new(EnemyType::Fast), Pos { x: 0, y: 0 });
    world.enemy_movement(0, Dir { x: 0, y: 1_000 }, 1_000);
    assert_eq!(world.enemies[0].pos, Pos { x: 0, y: 1_500 });
    world.damage_enemy(0, 100);
    world.enemy_movement(0, Dir { x: 0, y: 1_000 }, 1_000);
    assert_eq!(world.enemies[0].pos, Pos { x: 0, y: 1_500 });
}
