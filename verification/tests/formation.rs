use psycho_core::creator::LazyCreator;
use psycho_core::geometry::Vec2;
use psycho_core::reader::{
    BallEnemy, ConfigError, Formation, VerticalLinePlacement, VerticalLineSide,
};
use psycho_core::spawner::{EnemySpawnerLogic, SpawnSpeed};

#[test]
fn test_create_single() {
    let spawners = Formation::Single {
        enemy: BallEnemy::Simple,
        pos: Vec2::new(0, 0),
        speed: Vec2::new(10, 0),
        radius: 10,
    }
    .get_spawners()
    .unwrap();
    let mut creator = LazyCreator::new();
    for spawner in &spawners {
        spawner.do_spawn(&mut creator, Vec2::new(0, 0));
    }
    assert_eq!(creator.enemies.len(), 1);
    let e = &creator.enemies[0];
    assert_eq!(e.transform.0, Vec2::new(0, 0));
    assert_eq!(e.circle.radius, 10);
    assert_eq!(e.moving.0, Vec2::new(10, 0));
    assert!(matches!(e.enemy, BallEnemy::Simple));
}

#[test]
fn circle_without_radius_but_with_center_is_fatal() {
    let r = Formation::Circle {
        enemies: vec![BallEnemy::Simple],
        amount: 3,
        speed: 15,
        enemy_radius: 20,
        starting_angle: 0,
        formation_radius: None,
        formation_center: Some(Vec2::new(100, 100)),
    }
    .get_spawners();
    assert_eq!(r.unwrap_err(), ConfigError::CenterWithoutRadius);
}

#[test]
fn circle_places_points_on_cardinal_directions() {
    let spawners = Formation::Circle {
        enemies: vec![BallEnemy::Simple, BallEnemy::Double],
        amount: 4,
        speed: 15,
        enemy_radius: 20,
        starting_angle: 0,
        formation_radius: Some(50),
        formation_center: Some(Vec2::new(100, 100)),
    }
    .get_spawners()
    .unwrap();
    assert_eq!(spawners.len(), 4);
    let expected = [
        ((100, 50), (0, 15), BallEnemy::Simple),
        ((150, 100), (-15, 0), BallEnemy::Double),
        ((100, 150), (0, -15), BallEnemy::Simple),
        ((50, 100), (15, 0), BallEnemy::Double),
    ];
    for (s, (pos, speed, enemy)) in spawners.iter().zip(expected) {
        assert_eq!(s.position, Vec2::new(pos.0, pos.1));
        assert_eq!(s.spawn_speed, SpawnSpeed::Fixed(Vec2::new(speed.0, speed.1)));
        assert_eq!(s.spawn_at, 0);
        match &s.logic {
            EnemySpawnerLogic::Single { enemy: e, radius } => {
                assert_eq!(*e, enemy);
                assert_eq!(*radius, 20);
            }
            other => panic!("unexpected logic {:?}", other),
        }
    }
}

#[test]
fn vertical_line_spawns_off_the_left_edge() {
    let spawners = Formation::VerticalLine {
        enemies: vec![BallEnemy::Simple, BallEnemy::Double],
        amount: 2,
        speed: 15,
        radius: 10,
        side: VerticalLineSide::Left,
        placement: VerticalLinePlacement::Distribute { margin: Some(10) },
    }
    .get_spawners()
    .unwrap();
    assert_eq!(spawners.len(), 2);
    // Distributed along the 600-unit tall edge, one radius outside it.
    assert_eq!(spawners[0].position, Vec2::new(-10, 20));
    assert_eq!(spawners[1].position, Vec2::new(-10, 580));
    for s in &spawners {
        assert_eq!(s.spawn_speed, SpawnSpeed::Fixed(Vec2::new(15, 0)));
    }
    assert!(matches!(
        spawners[0].logic,
        EnemySpawnerLogic::Single { enemy: BallEnemy::Simple, .. }
    ));
    assert!(matches!(
        spawners[1].logic,
        EnemySpawnerLogic::Single { enemy: BallEnemy::Double, .. }
    ));
}

#[test]
fn vertical_line_from_the_right_flips_the_speed() {
    let spawners = Formation::VerticalLine {
        enemies: vec![BallEnemy::Simple],
        amount: 1,
        speed: 15,
        radius: 10,
        side: VerticalLineSide::Right,
        placement: VerticalLinePlacement::Distribute { margin: None },
    }
    .get_spawners()
    .unwrap();
    assert_eq!(spawners.len(), 1);
    assert_eq!(spawners[0].position, Vec2::new(810, 300));
    assert_eq!(spawners[0].spawn_speed, SpawnSpeed::Fixed(Vec2::new(-15, 0)));
}

#[test]
fn vertical_line_v_placement_rejects_even_amounts() {
    let r = Formation::VerticalLine {
        enemies: vec![BallEnemy::Simple],
        amount: 4,
        speed: 15,
        radius: 10,
        side: VerticalLineSide::Left,
        placement: VerticalLinePlacement::V {
            margin: Some(10),
            spacing: 10,
        },
    }
    .get_spawners();
    assert_eq!(r.unwrap_err(), ConfigError::EvenAmountInV);
}

#[test]
fn multiple_trails_enemies_behind_the_lead() {
    let spawners = Formation::Multiple {
        enemies: vec![BallEnemy::Simple, BallEnemy::Double],
        amount: 3,
        spacing: 5,
        pos: Vec2::new(100, 100),
        speed: Vec2::new(10, 0),
        radius: 10,
    }
    .get_spawners()
    .unwrap();
    assert_eq!(spawners.len(), 1);
    let mut creator = LazyCreator::new();
    spawners[0].do_spawn(&mut creator, Vec2::new(0, 0));
    assert_eq!(creator.enemies.len(), 3);
    let xs: Vec<i64> = creator.enemies.iter().map(|e| e.transform.0.x).collect();
    assert_eq!(xs, vec![100, 75, 50]);
    let kinds: Vec<BallEnemy> = creator.enemies.iter().map(|e| e.enemy).collect();
    assert_eq!(
        kinds,
        vec![BallEnemy::Simple, BallEnemy::Double, BallEnemy::Simple]
    );
    for e in &creator.enemies {
        assert_eq!(e.moving.0, Vec2::new(10, 0));
        assert_eq!(e.circle.radius, 10);
        assert_eq!(e.transform.0.y, 100);
    }
}

#[test]
fn spiral_walks_outward_around_the_screen_center() {
    let spawners = Formation::Spiral {
        enemies: vec![BallEnemy::Simple],
        amount_in_circle: 4,
        amount: 2,
        spacing: 10,
        enemy_radius: 20,
        speed: 10,
    }
    .get_spawners()
    .unwrap();
    assert_eq!(spawners.len(), 2);
    assert_eq!(spawners[0].position, Vec2::new(920, 300));
    assert_eq!(spawners[0].spawn_speed, SpawnSpeed::Fixed(Vec2::new(-10, 0)));
    assert_eq!(spawners[1].position, Vec2::new(400, 830));
    assert_eq!(spawners[1].spawn_speed, SpawnSpeed::Fixed(Vec2::new(0, -10)));
}
