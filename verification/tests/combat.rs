use psycho_core::components::{Circle, Color, Moving, Transform};
use psycho_core::geometry::Vec2;
use psycho_core::systems::gameplay::{Collider, CollisionSystem};
use psycho_core::systems::player::{
    CollisionSystem as PlayerCollisionSystem, ShootSystem, ShotRecord,
};

fn collider(x: i64, y: i64, r: i64) -> Collider {
    Collider {
        transform: Transform::new(x, y),
        circle: Circle::with_radius(r),
    }
}

#[test]
fn shots_and_enemies_die_pairwise() {
    let enemies = vec![collider(0, 0, 5), collider(100, 0, 5)];
    let shots = vec![collider(3, 0, 1), collider(50, 0, 1), collider(99, 0, 2)];
    let (dead_shots, dead_enemies) = CollisionSystem::run(&shots, &enemies);
    assert_eq!(dead_shots, vec![true, false, true]);
    assert_eq!(dead_enemies, vec![true, true]);
}

#[test]
fn a_shot_stops_at_its_first_hit() {
    let enemies = vec![collider(0, 0, 5), collider(2, 0, 5)];
    let shots = vec![collider(1, 0, 1)];
    let (dead_shots, dead_enemies) = CollisionSystem::run(&shots, &enemies);
    assert_eq!(dead_shots, vec![true]);
    assert_eq!(dead_enemies, vec![true, false]);
}

#[test]
fn player_dies_on_enemy_contact_with_grace_gap() {
    let player = collider(0, 0, 10);
    assert!(!PlayerCollisionSystem::run(&player, &vec![collider(15, 0, 5)]));
    assert!(PlayerCollisionSystem::run(&player, &vec![collider(12, 0, 5)]));
    assert!(!PlayerCollisionSystem::run(&player, &vec![]));
}

#[test]
fn shooting_honours_the_cooldown_and_the_mouse() {
    let mut shooter = ShootSystem::default();
    let center = Vec2::new(100, 100);

    // A click straight below the ball: the shot starts on the border and
    // travels downward.
    let shot = shooter
        .run(0, center, 24, Some(Vec2::new(100, 200)), true)
        .unwrap();
    assert_eq!(
        shot,
        ShotRecord {
            transform: Transform::new(100, 119),
            circle: Circle::with_radius(5),
            color: Color::rgb(100, 100, 900),
            moving: Moving::new(0, 20),
        }
    );

    // Too soon after the last shot: nothing fires.
    assert!(shooter
        .run(100, center, 24, Some(Vec2::new(100, 200)), true)
        .is_none());

    // Button released: nothing fires either.
    assert!(shooter
        .run(1000, center, 24, Some(Vec2::new(100, 200)), false)
        .is_none());

    // A press with no pointer aims nowhere but still resets the cooldown.
    assert!(shooter.run(1000, center, 24, None, true).is_none());
    assert!(shooter
        .run(1100, center, 24, Some(Vec2::new(100, 200)), true)
        .is_none());
    assert!(shooter
        .run(1180, center, 24, Some(Vec2::new(100, 200)), true)
        .is_some());
}
