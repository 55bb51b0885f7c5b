use epic_shooter::combat::handle_pickup_collection;
use epic_shooter::enemy::{Enemy, EnemyType};
use epic_shooter::game::{Game, InputAction};
use epic_shooter::geom::{Dir, Pos};
use epic_shooter::pickup::{Pickup, PickupType};
use epic_shooter::progression::Multishot;
use epic_shooter::state::GameState;
use epic_shooter::weapon::WeaponType;
use epic_shooter::world::{PickupSlot, World};

fn playing_game() -> Game {
    let mut g = Game::new();
    g.handle_input(InputAction::Confirm);
    assert_eq!(g.state, GameState::Playing);
    g
}

#[test]
fn starts_at_main_menu() {
    let g = Game::new();
    assert_eq!(g.state, GameState::MainMenu);
    assert_eq!(g.data.score, 0);
    assert_eq!(g.data.level, 1);
    assert_eq!(g.data.high_score, 0);
    assert!(g.world.player.is_none());
}

#[test]
fn start_input_spawns_player() {
    let g = playing_game();
    let pc = g.world.player.unwrap();
    assert_eq!(pc.player.health, 100);
    assert_eq!(pc.player.current_weapon, WeaponType::Pistol);
    assert_eq!(pc.upgrades.multishot, Multishot::Single);
}

#[test]
fn pause_and_resume_keep_world() {
    let mut g = playing_game();
    g.world.spawn_enemy(Enemy::new(EnemyType::Basic), Pos { x: 500, y: 0 });
    g.handle_input(InputAction::PauseToggle);
    assert_eq!(g.state, GameState::Paused);
    assert!(g.world.player.is_some());
    assert_eq!(g.world.enemies.len(), 1);
    g.handle_input(InputAction::PauseToggle);
    assert_eq!(g.state, GameState::Playing);
    assert!(g.world.player.is_some());
    assert_eq!(g.world.enemies.len(), 1);
}

#[test]
fn paused_game_ticks_do_nothing() {
    let mut g = playing_game();
    g.world.spawn_enemy(Enemy::new(EnemyType::Fast), Pos { x: 100, y: 0 });
    g.handle_input(InputAction::PauseToggle);
    g.tick(5_000, 16, true, Dir { x: 1_000, y: 0 });
    assert_eq!(g.world.projectiles.len(), 0);
    assert_eq!(g.world.enemies[0].enemy.health, 30);
    assert_eq!(g.data.score, 0);
}

#[test]
fn game_over_records_high_score_and_restart_resets() {
    // Dying at score 150 with a high score of 100 records 150; the
    // restart clears score and level but keeps the high score.
    let mut g = playing_game();
    g.data.score = 150;
    g.data.high_score = 100;
    g.damage_player(1_000);
    assert_eq!(g.state, GameState::GameOver);
    assert_eq!(g.data.high_score, 150);
    assert_eq!(g.data.score, 150);
    assert!(g.world.player.is_none());

    g.handle_input(InputAction::Confirm);
    assert_eq!(g.state, GameState::Playing);
    assert_eq!(g.data.score, 0);
    assert_eq!(g.data.level, 1);
    assert_eq!(g.data.high_score, 150);
    let pc = g.world.player.unwrap();
    assert_eq!(pc.player.health, 100);
}

#[test]
fn partial_damage_keeps_playing() {
    let mut g = playing_game();
    g.damage_player(30);
    assert_eq!(g.state, GameState::Playing);
    assert_eq!(g.world.player.unwrap().player.health, 70);
}

#[test]
fn triple_then_double_pickup_leaves_double_active() {
    // Collecting a triple-shot pickup and then a double-shot pickup
    // leaves double-shot active and triple-shot cleared.
    let mut world = World::new();
    world.spawn_player(Pos { x: 0, y: 0 });
    world.pickups.push(PickupSlot {
        pickup: Pickup::new(PickupType::TripleShot, Pos { x: 0, y: 0 }),
        alive: true,
    });
    world.pickups.push(PickupSlot {
        pickup: Pickup::new(PickupType::DoubleShot, Pos { x: 50, y: 0 }),
        alive: true,
    });
    handle_pickup_collection(&mut world);
    let pc = world.player.unwrap();
    assert_eq!(pc.upgrades.multishot, Multishot::Double);
    assert!(!world.pickups[0].alive);
    assert!(!world.pickups[1].alive);
}

#[test]
fn weapon_pickup_replaces_weapon_whole() {
    let mut world = World::new();
    world.spawn_player(Pos { x: 0, y: 0 });
    world.pickups.push(PickupSlot {
        pickup: Pickup::new(PickupType::Weapon(WeaponType::RocketLauncher), Pos { x: 0, y: 0 }),
        alive: true,
    });
    handle_pickup_collection(&mut world);
    let pc = world.player.unwrap();
    assert_eq!(pc.player.current_weapon, WeaponType::RocketLauncher);
    assert_eq!(pc.weapon.damage, 40);
    assert_eq!(pc.weapon.last_attack_ms, 0);
}

#[test]
fn health_pack_heals_clamped_at_maximum() {
    let mut world = World::new();
    world.spawn_player(Pos { x: 0, y: 0 });
    let mut pc = world.player.unwrap();
    pc.player.take_damage(15);
    world.player = Some(pc);
    world.pickups.push(PickupSlot {
        pickup: Pickup::new(PickupType::HealthPack, Pos { x: 0, y: 0 }),
        alive: true,
    });
    handle_pickup_collection(&mut world);
    // 85 plus 25 clamps at the maximum of 100.
    assert_eq!(world.player.unwrap().player.health, 100);
}

#[test]
fn distant_pickup_stays_uncollected() {
    let mut world = World::new();
    world.spawn_player(Pos { x: 0, y: 0 });
    world.pickups.push(PickupSlot {
        pickup: Pickup::new(PickupType::HealthPack, Pos { x: 10_000, y: 0 }),
        alive: true,
    });
    handle_pickup_collection(&mut world);
    assert!(world.pickups[0].alive);
}

#[test]
fn tick_kills_enemy_and_scores() {
    // An enemy in point-blank range dies to three pistol shots; the
    // kill is worth ten points and fires the loot roll exactly once.
    let mut g = playing_game();
    g.world.spawn_enemy(Enemy::new(EnemyType::Fast), Pos { x: 200, y: 0 });
    let mut now = 0u64;
    for _ in 0..3 {
        now += 500;
        g.tick(now, 50, true, Dir { x: 1_000, y: 0 });
    }
    assert!(!g.world.enemies[0].alive);
    assert_eq!(g.data.score, 10);
    assert_eq!(g.state, GameState::Playing);
    assert_eq!(g.world.pending_drops.len(), 0);
    assert!(g.world.pickups.len() <= 1);
}

#[test]
fn level_clears_when_score_reaches_target() {
    let mut g = playing_game();
    g.data.score = 95;
    g.world.spawn_enemy(Enemy::new(EnemyType::Fast), Pos { x: 200, y: 0 });
    let mut now = 0u64;
    for _ in 0..3 {
        now += 500;
        g.tick(now, 50, true, Dir { x: 1_000, y: 0 });
        if g.state != GameState::Playing {
            break;
        }
    }
    assert_eq!(g.state, GameState::LevelComplete);
    assert_eq!(g.data.score, 105);
    assert!(g.world.player.is_none());
    assert_eq!(g.world.projectiles.len(), 0);

    g.handle_input(InputAction::Confirm);
    assert_eq!(g.state, GameState::Playing);
    assert_eq!(g.data.level, 2);
    assert_eq!(g.data.score, 105);
    assert!(g.world.player.is_some());
}

#[test]
fn inputs_not_listened_for_change_nothing() {
    let mut g = Game::new();
    g.handle_input(InputAction::PauseToggle);
    assert_eq!(g.state, GameState::MainMenu);
    let mut p = playing_game();
    p.handle_input(InputAction::Confirm);
    assert_eq!(p.state, GameState::Playing);
}
