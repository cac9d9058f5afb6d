use psycho_core::creator::LazyCreator;
use psycho_core::executor::{LevelExecutorSystem, State};
use psycho_core::geometry::Vec2;
use psycho_core::reader::{
    BallEnemy, ConfigError, Formation, LevelEvent, ScriptedLevel,
};
use psycho_core::spawner::SpawnSpeed;

fn single_formation() -> Formation {
    Formation::Single {
        enemy: BallEnemy::Simple,
        pos: Vec2::new(100, 100),
        speed: Vec2::new(10, 0),
        radius: 10,
    }
}

#[test]
fn executor_sleeps_then_spawns_then_finishes() {
    let level = ScriptedLevel::new(vec![
        LevelEvent::Wait(1000),
        LevelEvent::Spawn(single_formation()),
    ]);
    let mut ex = LevelExecutorSystem::new(level);
    let mut creator = LazyCreator::new();
    let player = Vec2::new(0, 0);

    ex.run(0, true, true, player, &mut creator).unwrap();
    assert!(matches!(ex.state, State::Sleeping { until: 1000 }));

    ex.run(500, true, true, player, &mut creator).unwrap();
    assert!(matches!(ex.state, State::Sleeping { until: 1000 }));
    assert!(creator.enemies.is_empty() && creator.spawners.is_empty());

    ex.run(1000, true, true, player, &mut creator).unwrap();
    assert!(matches!(ex.state, State::Finished));
    // The default telegraph duration is positive, so the spawn is deferred.
    assert_eq!(creator.spawners.len(), 1);
    assert_eq!(creator.spawners[0].spawner.spawn_at, 2000);
    assert!(creator.enemies.is_empty());

    ex.run(5000, true, true, player, &mut creator).unwrap();
    assert!(matches!(ex.state, State::Finished));
    assert_eq!(creator.spawners.len(), 1);
    assert!(creator.enemies.is_empty());
}

#[test]
fn wait_until_no_enemies_blocks_while_anything_lives() {
    let level = ScriptedLevel::new(vec![LevelEvent::WaitUntilNoEnemies]);
    let mut ex = LevelExecutorSystem::new(level);
    let mut creator = LazyCreator::new();
    let player = Vec2::new(0, 0);

    ex.run(0, true, true, player, &mut creator).unwrap();
    assert!(matches!(ex.state, State::WaitUntilNoEnemies));

    // An enemy alive, or a spawner pending: the executor stays put.
    ex.run(1, false, true, player, &mut creator).unwrap();
    assert!(matches!(ex.state, State::WaitUntilNoEnemies));
    ex.run(2, true, false, player, &mut creator).unwrap();
    assert!(matches!(ex.state, State::WaitUntilNoEnemies));
    ex.run(3, false, false, player, &mut creator).unwrap();
    assert!(matches!(ex.state, State::WaitUntilNoEnemies));

    // First tick with both registries empty: the wait resolves.
    ex.run(4, true, true, player, &mut creator).unwrap();
    assert!(matches!(ex.state, State::Finished));
}

#[test]
fn wait_until_no_enemies_defers_its_check_one_tick() {
    let level = ScriptedLevel::new(vec![
        LevelEvent::CustomSpawn {
            formation: single_formation(),
            indicator_duration: Some(500),
            follow_player: false,
        },
        LevelEvent::WaitUntilNoEnemies,
    ]);
    let mut ex = LevelExecutorSystem::new(level);
    let mut creator = LazyCreator::new();
    let player = Vec2::new(0, 0);

    // The spawn is deferred within this very tick, so the registries still
    // read as empty; the executor must nevertheless yield and re-check on
    // the next tick rather than sail through the wait.
    ex.run(0, true, true, player, &mut creator).unwrap();
    assert!(matches!(ex.state, State::WaitUntilNoEnemies));
    assert_eq!(creator.spawners.len(), 1);

    // Next tick the staged spawner is visible: still waiting.
    ex.run(1, true, false, player, &mut creator).unwrap();
    assert!(matches!(ex.state, State::WaitUntilNoEnemies));

    ex.run(2, true, true, player, &mut creator).unwrap();
    assert!(matches!(ex.state, State::Finished));
}

#[test]
fn zero_default_duration_fires_immediately() {
    let level = ScriptedLevel::new(vec![
        LevelEvent::SetDefaultIndicatorDuration(0),
        LevelEvent::Spawn(single_formation()),
    ]);
    let mut ex = LevelExecutorSystem::new(level);
    let mut creator = LazyCreator::new();

    ex.run(0, true, true, Vec2::new(0, 0), &mut creator).unwrap();
    assert!(matches!(ex.state, State::Finished));
    assert!(creator.spawners.is_empty());
    assert_eq!(creator.enemies.len(), 1);
    assert_eq!(creator.enemies[0].transform.0, Vec2::new(100, 100));
    assert_eq!(creator.enemies[0].moving.0, Vec2::new(10, 0));
}

#[test]
fn follow_player_overrides_the_aim_keeping_the_speed() {
    let level = ScriptedLevel::new(vec![LevelEvent::CustomSpawn {
        formation: single_formation(),
        indicator_duration: Some(200),
        follow_player: true,
    }]);
    let mut ex = LevelExecutorSystem::new(level);
    let mut creator = LazyCreator::new();

    ex.run(0, true, true, Vec2::new(0, 0), &mut creator).unwrap();
    assert_eq!(creator.spawners.len(), 1);
    let staged = &creator.spawners[0].spawner;
    // The fixed velocity (10, 0) has magnitude 10.
    assert_eq!(staged.spawn_speed, SpawnSpeed::AimAtPlayer { speed: 10 });
    assert_eq!(staged.spawn_at, 200);
}

#[test]
fn malformed_formation_aborts_the_script() {
    let level = ScriptedLevel::new(vec![LevelEvent::Spawn(Formation::Circle {
        enemies: vec![BallEnemy::Simple],
        amount: 3,
        speed: 15,
        enemy_radius: 20,
        starting_angle: 0,
        formation_radius: None,
        formation_center: Some(Vec2::new(10, 10)),
    })]);
    let mut ex = LevelExecutorSystem::new(level);
    let mut creator = LazyCreator::new();

    let r = ex.run(0, true, true, Vec2::new(0, 0), &mut creator);
    assert_eq!(r.unwrap_err(), ConfigError::CenterWithoutRadius);
    assert!(creator.enemies.is_empty() && creator.spawners.is_empty());
}

#[test]
fn custom_duration_beats_the_session_default() {
    let level = ScriptedLevel::new(vec![
        LevelEvent::SetDefaultIndicatorDuration(9000),
        LevelEvent::CustomSpawn {
            formation: single_formation(),
            indicator_duration: Some(300),
            follow_player: false,
        },
        LevelEvent::Spawn(single_formation()),
    ]);
    let mut ex = LevelExecutorSystem::new(level);
    let mut creator = LazyCreator::new();

    ex.run(100, true, true, Vec2::new(0, 0), &mut creator).unwrap();
    assert!(matches!(ex.state, State::Finished));
    assert_eq!(creator.spawners.len(), 2);
    assert_eq!(creator.spawners[0].spawner.spawn_at, 400);
    assert_eq!(creator.spawners[1].spawner.spawn_at, 9100);
}

#[test]
fn handle_level_event_maps_events_to_states() {
    let mut ex = LevelExecutorSystem::new(ScriptedLevel::new(vec![]));
    let mut creator = LazyCreator::new();
    let player = Vec2::new(0, 0);

    let st = ex
        .handle_level_event(Some(LevelEvent::Wait(500)), 100, player, &mut creator)
        .unwrap();
    assert!(matches!(st, State::Sleeping { until: 600 }));

    let st = ex
        .handle_level_event(Some(LevelEvent::WaitUntilNoEnemies), 100, player, &mut creator)
        .unwrap();
    assert!(matches!(st, State::WaitUntilNoEnemies));

    let st = ex
        .handle_level_event(
            Some(LevelEvent::SetDefaultIndicatorDuration(50)),
            100,
            player,
            &mut creator,
        )
        .unwrap();
    assert!(matches!(st, State::ReadyForInstruction));
    assert_eq!(ex.indicator_duration, 50);

    let st = ex.handle_level_event(None, 100, player, &mut creator).unwrap();
    assert!(matches!(st, State::Finished));

    // Handling events never touches the executor's own state directly.
    assert!(matches!(ex.state, State::ReadyForInstruction));
    assert!(creator.enemies.is_empty() && creator.spawners.is_empty());
}

#[test]
fn staged_spawners_start_white_with_a_placeholder_telegraph() {
    let level = ScriptedLevel::new(vec![LevelEvent::Spawn(single_formation())]);
    let mut ex = LevelExecutorSystem::new(level);
    let mut creator = LazyCreator::new();

    ex.run(0, true, true, Vec2::new(0, 0), &mut creator).unwrap();
    assert_eq!(creator.spawners.len(), 1);
    let record = &creator.spawners[0];
    assert_eq!(record.color, psycho_core::components::Color::rgb(1000, 1000, 1000));
    let placeholder = psycho_core::components::Triangle::new(
        Vec2::new(-1, -1),
        Vec2::new(-1, -1),
        Vec2::new(-1, -1),
    );
    assert_eq!(record.triangle, placeholder);
    assert!(matches!(
        record.spawner.spawn_speed,
        SpawnSpeed::Fixed(Vec2 { x: 10, y: 0 })
    ));
}
