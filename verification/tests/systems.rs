use psycho_core::components::{Circle, Color, Moving, Particle, Transform, Triangle};
use psycho_core::creator::LazyCreator;
use psycho_core::geometry::Vec2;
use psycho_core::reader::BallEnemy;
use psycho_core::spawner::{EnemySpawner, EnemySpawnerLogic, SpawnSpeed};
use psycho_core::systems::{
    EnemySpawnerSystem, FadeSystem, LeaveScreenAction, LeaveScreenSystem, MoveSystem,
    MovingSystem, PlayerPosition, ScreenItem,
};

#[test]
fn moving_system_advances_every_transform() {
    let movings = vec![Moving::new(3, -4), Moving::new(0, 0)];
    let mut transforms = vec![Transform::new(10, 10), Transform::new(5, 5)];
    MovingSystem::run(&movings, &mut transforms);
    assert_eq!(transforms, vec![Transform::new(13, 6), Transform::new(5, 5)]);
}

#[test]
fn leave_screen_marks_kills_and_spares() {
    let items = vec![
        // Inside and already marked: nothing to do.
        ScreenItem {
            transform: Transform::new(100, 100),
            circle: Circle::with_radius(10),
            in_screen: true,
        },
        // Marked and now fully out: killed.
        ScreenItem {
            transform: Transform::new(-20, 100),
            circle: Circle::with_radius(5),
            in_screen: true,
        },
        // Fresh and fully inside: marked.
        ScreenItem {
            transform: Transform::new(400, 300),
            circle: Circle::with_radius(10),
            in_screen: false,
        },
        // Fresh spawn still outside the screen: spared.
        ScreenItem {
            transform: Transform::new(900, 300),
            circle: Circle::with_radius(10),
            in_screen: false,
        },
    ];
    let actions = LeaveScreenSystem::run(&items);
    assert_eq!(
        actions,
        vec![
            LeaveScreenAction::Keep,
            LeaveScreenAction::Delete,
            LeaveScreenAction::MarkInScreen,
            LeaveScreenAction::Keep,
        ]
    );
}

#[test]
fn fade_system_dims_and_reaps_particles() {
    let particles = vec![
        Particle { created: 0, lifetime: 1000 },
        Particle { created: 0, lifetime: 500 },
        Particle { created: 400, lifetime: 1000 },
    ];
    let mut colors = vec![
        Color::rgb(100, 200, 300),
        Color::rgb(1, 2, 3),
        Color::rgb(4, 5, 6),
    ];
    let expired = FadeSystem::run(500, &particles, &mut colors);
    assert_eq!(expired, vec![false, true, false]);
    assert_eq!(colors[0], Color::rgba(100, 200, 300, 500));
    assert_eq!(colors[1], Color::rgba(1, 2, 3, 0));
    assert_eq!(colors[2], Color::rgba(4, 5, 6, 900));
}

#[test]
fn spawner_system_fires_due_spawners_and_updates_indicators() {
    let due = EnemySpawner {
        position: Vec2::new(50, 60),
        spawn_speed: SpawnSpeed::Fixed(Vec2::new(10, 0)),
        logic: EnemySpawnerLogic::Single { enemy: BallEnemy::Double, radius: 12 },
        spawn_at: 5,
    };
    let pending = EnemySpawner {
        position: Vec2::new(400, 300),
        spawn_speed: SpawnSpeed::Fixed(Vec2::new(0, 10)),
        logic: EnemySpawnerLogic::Single { enemy: BallEnemy::Simple, radius: 8 },
        spawn_at: 100,
    };
    let spawners = vec![due, pending];
    let placeholder = Triangle::new(Vec2::new(-1, -1), Vec2::new(-1, -1), Vec2::new(-1, -1));
    let mut triangles = vec![placeholder, placeholder];
    let mut creator = LazyCreator::new();

    let fired = EnemySpawnerSystem::run(7, Vec2::new(0, 0), &spawners, &mut triangles, &mut creator);

    assert_eq!(fired, vec![true, false]);
    assert_eq!(creator.enemies.len(), 1);
    assert_eq!(creator.enemies[0].transform.0, Vec2::new(50, 60));
    assert_eq!(creator.enemies[0].moving.0, Vec2::new(10, 0));
    assert!(matches!(creator.enemies[0].enemy, BallEnemy::Double));
    // The fired spawner's placeholder is left alone.
    assert_eq!(triangles[0], placeholder);
    // The pending spawner's telegraph points straight down from its
    // clamped center (400, 300).
    assert_eq!(
        triangles[1],
        Triangle::new(Vec2::new(400, 318), Vec2::new(391, 282), Vec2::new(409, 282)),
    );
}

#[test]
fn aim_at_player_resolves_toward_the_player() {
    let s = EnemySpawner {
        position: Vec2::new(0, 0),
        spawn_speed: SpawnSpeed::AimAtPlayer { speed: 10 },
        logic: EnemySpawnerLogic::Single { enemy: BallEnemy::Simple, radius: 5 },
        spawn_at: 0,
    };
    assert_eq!(s.calc_speed(Vec2::new(30, 40)), Vec2::new(6, 8));
    // Player exactly on the spawner: the documented fallback is straight
    // down the screen.
    assert_eq!(s.calc_speed(Vec2::new(0, 0)), Vec2::new(0, 10));
}

#[test]
fn double_ball_splits_into_two_simple_children() {
    let mut creator = LazyCreator::new();
    BallEnemy::Double.on_destroy(
        &mut creator,
        &Transform::new(200, 200),
        &Moving::new(100, 0),
        &Circle::with_radius(20),
        1000,
    );
    assert_eq!(creator.enemies.len(), 2);
    for e in &creator.enemies {
        assert!(matches!(e.enemy, BallEnemy::Simple));
        assert_eq!(e.circle.radius, 12);
        // One full timestep ahead of the parent.
        assert_eq!(e.transform.0, Vec2::new(300, 200));
    }
    // Fifteen degrees to either side of the parent's velocity.
    assert_eq!(creator.enemies[0].moving.0, Vec2::new(96, -26));
    assert_eq!(creator.enemies[1].moving.0, Vec2::new(96, 26));
}

#[test]
fn simple_ball_leaves_nothing_behind() {
    let mut creator = LazyCreator::new();
    BallEnemy::Simple.on_destroy(
        &mut creator,
        &Transform::new(200, 200),
        &Moving::new(100, 0),
        &Circle::with_radius(20),
        1000,
    );
    assert!(creator.enemies.is_empty());
}

#[test]
fn move_system_steps_the_player_along_the_input() {
    let mut t = Transform::new(100, 100);
    let mut p = PlayerPosition::default();
    assert_eq!(p, PlayerPosition(Vec2::new(0, 0)));

    MoveSystem::run(1000, 0, &mut t, &mut p);
    assert_eq!(t, Transform::new(110, 100));
    assert_eq!(p, PlayerPosition(Vec2::new(110, 100)));

    // Pushing the stick up moves the ball toward smaller y.
    MoveSystem::run(0, 1000, &mut t, &mut p);
    assert_eq!(t, Transform::new(110, 90));

    // A centered stick keeps the ball in place.
    MoveSystem::run(0, 0, &mut t, &mut p);
    assert_eq!(t, Transform::new(110, 90));
    assert_eq!(p, PlayerPosition(Vec2::new(110, 90)));
}
