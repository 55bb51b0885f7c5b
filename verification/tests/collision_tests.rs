use epic_shooter::collision::{handle_enemy_obstacle_collision, handle_player_obstacle_collision};
use epic_shooter::enemy::{Enemy, EnemyType};
use epic_shooter::geom::{isqrt, Pos};
use epic_shooter::obstacle::{Obstacle, ObstacleType};
use epic_shooter::world::World;

#[test]
fn isqrt_floors_exactly() {
    assert_eq!(isqrt(0), 0);
    assert_eq!(isqrt(1), 1);
    assert_eq!(isqrt(3), 1);
    assert_eq!(isqrt(4), 2);
    assert_eq!(isqrt(90_000), 300);
    assert_eq!(isqrt(90_001), 300);
    assert_eq!(isqrt(8_000_000_000_000_000_000), 2_828_427_124);
}

#[test]
fn overlapping_player_is_pushed_away() {
    // Player radius 160, obstacle half width 160, buffer 100: the
    // separation target is 420.  At distance 300 the overlap of 120
    // pushes by 90 units over a 50 ms frame, straight away.
    let mut world = World::new();
    world.spawn_player(Pos { x: 300, y: 0 });
    world.spawn_obstacle(Obstacle::new(ObstacleType::Crate), Pos { x: 0, y: 0 });
    handle_player_obstacle_collision(&mut world, 50);
    assert_eq!(world.player.unwrap().pos, Pos { x: 390, y: 0 });
}

#[test]
fn separated_player_is_not_pushed() {
    let mut world = World::new();
    world.spawn_player(Pos { x: 420, y: 0 });
    world.spawn_obstacle(Obstacle::new(ObstacleType::Rock), Pos { x: 0, y: 0 });
    handle_player_obstacle_collision(&mut world, 50);
    assert_eq!(world.player.unwrap().pos, Pos { x: 420, y: 0 });
}

#[test]
fn player_on_obstacle_center_stays_put() {
    let mut world = World::new();
    world.spawn_player(Pos { x: 0, y: 0 });
    world.spawn_obstacle(Obstacle::new(ObstacleType::Crate), Pos { x: 0, y: 0 });
    handle_player_obstacle_collision(&mut world, 50);
    assert_eq!(world.player.unwrap().pos, Pos { x: 0, y: 0 });
}

#[test]
fn overlapping_enemy_is_pushed_away() {
    let mut world = World::new();
    world.spawn_enemy(Enemy::new(EnemyType::Basic), Pos { x: 0, y: 400 });
    world.spawn_obstacle(Obstacle::new(ObstacleType::Bush), Pos { x: 0, y: 0 });
    handle_enemy_obstacle_collision(&mut world, 1_000);
    // Overlap 20 at the push rate over a full second moves 300 units.
    assert_eq!(world.enemies[0].pos, Pos { x: 0, y: 700 });
}

#[test]
fn destroyed_enemy_slot_is_not_pushed() {
    let mut world = World::new();
    world.spawn_enemy(Enemy::new(EnemyType::Basic), Pos { x: 0, y: 400 });
    world.damage_enemy(0, 1_000);
    world.spawn_obstacle(Obstacle::new(ObstacleType::Bush), Pos { x: 0, y: 0 });
    handle_enemy_obstacle_collision(&mut world, 1_000);
    assert_eq!(world.enemies[0].pos, Pos { x: 0, y: 400 });
}
