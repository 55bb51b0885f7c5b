use epic_shooter::enemy::{enemy_type_from_roll, random_enemy_type, spawn_position, EnemyType};
use epic_shooter::geom::{circles_overlap, rotate_dir, Dir, Pos};

#[test]
fn overlap_is_strict_on_the_boundary() {
    let a = Pos { x: 0, y: 0 };
    assert!(!circles_overlap(a, Pos { x: 100, y: 0 }, 100));
    assert!(circles_overlap(a, Pos { x: 99, y: 0 }, 100));
    assert!(circles_overlap(a, Pos { x: 60, y: 80 }, 101));
    assert!(!circles_overlap(a, Pos { x: 60, y: 80 }, 100));
}

#[test]
fn rotation_matches_fixed_point_formula() {
    let east = Dir { x: 1_000, y: 0 };
    assert_eq!(rotate_dir(east, 995, 100), Dir { x: 995, y: 100 });
    assert_eq!(rotate_dir(east, 995, -100), Dir { x: 995, y: -100 });
    let north = Dir { x: 0, y: 1_000 };
    assert_eq!(rotate_dir(north, 995, 100), Dir { x: -100, y: 995 });
}

#[test]
fn spawn_positions_sit_outside_each_edge() {
    assert_eq!(spawn_position(0, 30, 6_400, 3_600, 500), Pos { x: 30, y: 4_100 });
    assert_eq!(spawn_position(1, -20, 6_400, 3_600, 500), Pos { x: 6_900, y: -20 });
    assert_eq!(spawn_position(2, 0, 6_400, 3_600, 500), Pos { x: 0, y: -4_100 });
    assert_eq!(spawn_position(3, 15, 6_400, 3_600, 500), Pos { x: -6_900, y: 15 });
}

#[test]
fn enemy_type_roll_covers_all_types() {
    assert_eq!(enemy_type_from_roll(0), EnemyType::Basic);
    assert_eq!(enemy_type_from_roll(1), EnemyType::Fast);
    assert_eq!(enemy_type_from_roll(2), EnemyType::Tank);
    assert_eq!(enemy_type_from_roll(3), EnemyType::Shooter);
}

#[test]
fn random_enemy_type_returns_some_known_type() {
    for _ in 0..100 {
        let t = random_enemy_type();
        assert!(matches!(
            t,
            EnemyType::Basic | EnemyType::Fast | EnemyType::Tank | EnemyType::Shooter
        ));
    }
}
