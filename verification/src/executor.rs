//! The per-tick cooperative level executor: a state machine that drains
//! script events, sleeps, waits for a clear screen, and defers every enemy
//! creation through the command buffer.

use vstd::prelude::*;

use crate::components::{Color, TIME_LIMIT};
use crate::creator::{placeholder_triangle, EnemyRecord, LazyCreator, SpawnerRecord};
use crate::formation::{formation_error, formation_spawners};
use crate::geometry::{norm_of, vec_norm, Vec2, GEOM_LIMIT};
use crate::reader::{event_wf, formation_wf, ConfigError, Formation, Level, LevelEvent};
use crate::spawner::{
    calc_speed_vec, spawn_records, spawner_fresh, spawner_wf, EnemySpawner, SpawnSpeed,
};

verus! {

/// Where the executor stands in its cooperative schedule.
#[derive(Clone, Copy, Debug, PartialEq, Eq, Structural)]
pub enum State {
    /// Will pull and execute the next instruction as soon as possible.
    ReadyForInstruction,
    /// Asleep until the given millisecond timestamp.
    Sleeping { until: i64 },
    /// Asleep until no enemy and no pending spawner remains.
    WaitUntilNoEnemies,
    /// The script is exhausted; terminal.
    Finished,
}

/// A spawner whose velocity strategy was overridden to chase the player:
/// the magnitude of its current velocity is kept, the direction is
/// recomputed at firing time.
pub open spec fn follow_adjusted(s: EnemySpawner) -> EnemySpawner {
    EnemySpawner {
        spawn_speed: SpawnSpeed::AimAtPlayer {
            speed: norm_of(calc_speed_vec(s, Vec2 { x: 0, y: 0 })) as i64,
        },
        ..s
    }
}

/// The spawner actually staged for an event: follow-adjusted when asked.
pub open spec fn effective_spawner(s: EnemySpawner, follow: bool) -> EnemySpawner {
    if follow {
        follow_adjusted(s)
    } else {
        s
    }
}

/// The enemy records created when a whole spawner batch fires at once,
/// with no telegraph: each spawner's strategy materializes in order.
pub open spec fn fired_records(
    spawners: Seq<EnemySpawner>,
    follow: bool,
    player_pos: Vec2,
) -> Seq<EnemyRecord>
    decreases spawners.len(),
{
    if spawners.len() == 0 {
        Seq::empty()
    } else {
        let s = effective_spawner(spawners.last(), follow);
        fired_records(spawners.drop_last(), follow, player_pos) + spawn_records(
            s.logic,
            s.position,
            calc_speed_vec(s, player_pos),
        )
    }
}

/// The spawner entities staged when a batch is deferred: each spawner
/// carries the fire timestamp, a white telegraph color and the placeholder
/// indicator.
pub open spec fn staged_records(
    spawners: Seq<EnemySpawner>,
    follow: bool,
    spawn_at: int,
) -> Seq<SpawnerRecord> {
    Seq::new(
        spawners.len(),
        |i: int|
            SpawnerRecord {
                spawner: EnemySpawner {
                    spawn_at: spawn_at as i64,
                    ..effective_spawner(spawners[i], follow)
                },
                color: Color { r: 1000, g: 1000, b: 1000, a: 1000 },
                triangle: placeholder_triangle(),
            },
    )
}

/// What a spawn event does to the command buffer: with a non-positive
/// telegraph duration every batch fires immediately; otherwise each batch
/// is staged as a spawner entity firing at `now + dur`.
pub open spec fn spawn_effect(
    old_c: LazyCreator,
    new_c: LazyCreator,
    f: Formation,
    dur: int,
    follow: bool,
    now: int,
    player_pos: Vec2,
) -> bool {
    if dur <= 0 {
        new_c.enemies@ == old_c.enemies@ + fired_records(
            formation_spawners(f),
            follow,
            player_pos,
        ) && new_c.spawners@ == old_c.spawners@
    } else {
        new_c.enemies@ == old_c.enemies@ && new_c.spawners@ == old_c.spawners@ + staged_records(
            formation_spawners(f),
            follow,
            now + dur,
        )
    }
}

/// The command buffer is untouched.
pub open spec fn creator_unchanged(old_c: LazyCreator, new_c: LazyCreator) -> bool {
    new_c.enemies@ == old_c.enemies@ && new_c.spawners@ == old_c.spawners@
}

/// The telegraph duration a spawn event resolves to: its own, or the
/// session default.
pub open spec fn resolved_duration(ind: Option<i64>, session_default: int) -> int {
    match ind {
        Some(d) => d as int,
        None => session_default,
    }
}

/// The records one spawn event adds to the command buffer: fired enemies
/// when it carries no telegraph, staged spawners otherwise.
pub open spec fn spawn_added(f: Formation, dur: int, follow: bool, now: int, player_pos: Vec2) -> (
    Seq<EnemyRecord>,
    Seq<SpawnerRecord>,
) {
    if dur <= 0 {
        (fired_records(formation_spawners(f), follow, player_pos), Seq::empty())
    } else {
        (Seq::empty(), staged_records(formation_spawners(f), follow, now + dur))
    }
}

/// One whole executor tick, as a fold over the script.  From a state, the
/// queue of remaining events and the session default duration it yields
/// the state, queue and default at the end of the tick, the records
/// appended to the command buffer along the way, and the configuration
/// error that aborted the tick, if one did.  It mirrors the cooperative
/// schedule exactly: a blocked state yields at once; a woken sleep or a
/// resolved wait pulls events; each event is applied in script order; a
/// just-entered `WaitUntilNoEnemies` yields without consulting the
/// registry flags.
#[verifier::opaque]
pub open spec fn tick(
    s: State,
    q: Seq<LevelEvent>,
    d: int,
    now: int,
    enemies_empty: bool,
    spawners_empty: bool,
    player_pos: Vec2,
) -> (State, Seq<LevelEvent>, int, Seq<EnemyRecord>, Seq<SpawnerRecord>, Option<ConfigError>)
    decreases q.len(), state_rank(s),
{
    match s {
        State::Finished => (s, q, d, Seq::empty(), Seq::empty(), None),
        State::Sleeping { until } => if now >= until {
            tick(State::ReadyForInstruction, q, d, now, enemies_empty, spawners_empty, player_pos)
        } else {
            (s, q, d, Seq::empty(), Seq::empty(), None)
        },
        State::WaitUntilNoEnemies => if enemies_empty && spawners_empty {
            tick(State::ReadyForInstruction, q, d, now, enemies_empty, spawners_empty, player_pos)
        } else {
            (s, q, d, Seq::empty(), Seq::empty(), None)
        },
        State::ReadyForInstruction => if q.len() == 0 {
            (State::Finished, q, d, Seq::empty(), Seq::empty(), None)
        } else {
            let rest = q.drop_first();
            match q.first() {
                LevelEvent::Wait(ms) => tick(
                    State::Sleeping { until: (now + ms) as i64 },
                    rest,
                    d,
                    now,
                    enemies_empty,
                    spawners_empty,
                    player_pos,
                ),
                LevelEvent::WaitUntilNoEnemies => (
                    State::WaitUntilNoEnemies,
                    rest,
                    d,
                    Seq::empty(),
                    Seq::empty(),
                    None,
                ),
                LevelEvent::SetDefaultIndicatorDuration(nd) => tick(
                    State::ReadyForInstruction,
                    rest,
                    nd as int,
                    now,
                    enemies_empty,
                    spawners_empty,
                    player_pos,
                ),
                LevelEvent::Spawn(f) => match formation_error(f) {
                    Some(e) => (
                        State::ReadyForInstruction,
                        rest,
                        d,
                        Seq::empty(),
                        Seq::empty(),
                        Some(e),
                    ),
                    None => {
                        let added = spawn_added(f, d, false, now, player_pos);
                        let t = tick(
                            State::ReadyForInstruction,
                            rest,
                            d,
                            now,
                            enemies_empty,
                            spawners_empty,
                            player_pos,
                        );
                        (t.0, t.1, t.2, added.0 + t.3, added.1 + t.4, t.5)
                    },
                },
                LevelEvent::CustomSpawn { formation, indicator_duration, follow_player } => match
                formation_error(formation) {
                    Some(e) => (
                        State::ReadyForInstruction,
                        rest,
                        d,
                        Seq::empty(),
                        Seq::empty(),
                        Some(e),
                    ),
                    None => {
                        let added = spawn_added(
                            formation,
                            resolved_duration(indicator_duration, d),
                            follow_player,
                            now,
                            player_pos,
                        );
                        let t = tick(
                            State::ReadyForInstruction,
                            rest,
                            d,
                            now,
                            enemies_empty,
                            spawners_empty,
                            player_pos,
                        );
                        (t.0, t.1, t.2, added.0 + t.3, added.1 + t.4, t.5)
                    },
                },
            }
        },
    }
}

/// A blocked state yields at once: the tick fold is the identity outcome.
proof fn lemma_tick_blocked(
    s: State,
    q: Seq<LevelEvent>,
    d: int,
    now: int,
    ee: bool,
    se: bool,
    p: Vec2,
)
    requires
        s is Finished || (s matches State::Sleeping { until } && now < until) || (s
            is WaitUntilNoEnemies && !(ee && se)),
    ensures
        tick(s, q, d, now, ee, se, p) == (
            s,
            q,
            d,
            Seq::<EnemyRecord>::empty(),
            Seq::<SpawnerRecord>::empty(),
            None::<ConfigError>,
        ),
{
    reveal_with_fuel(tick, 1);
}

/// A woken sleep or a resolved wait proceeds to pull instructions.
proof fn lemma_tick_progress(
    s: State,
    q: Seq<LevelEvent>,
    d: int,
    now: int,
    ee: bool,
    se: bool,
    p: Vec2,
)
    requires
        (s matches State::Sleeping { until } && now >= until) || (s is WaitUntilNoEnemies && ee
            && se),
    ensures
        tick(s, q, d, now, ee, se, p) == tick(
            State::ReadyForInstruction,
            q,
            d,
            now,
            ee,
            se,
            p,
        ),
{
    reveal_with_fuel(tick, 1);
}

/// An exhausted script finishes the fold.
proof fn lemma_tick_exhausted(q: Seq<LevelEvent>, d: int, now: int, ee: bool, se: bool, p: Vec2)
    requires
        q.len() == 0,
    ensures
        tick(State::ReadyForInstruction, q, d, now, ee, se, p) == (
            State::Finished,
            q,
            d,
            Seq::<EnemyRecord>::empty(),
            Seq::<SpawnerRecord>::empty(),
            None::<ConfigError>,
        ),
{
    reveal_with_fuel(tick, 1);
}

/// One event of the fold: what consuming the queue's head does to the
/// outcome, per event kind.
proof fn lemma_tick_event(q: Seq<LevelEvent>, d: int, now: int, ee: bool, se: bool, p: Vec2)
    requires
        q.len() > 0,
    ensures
        match q.first() {
            LevelEvent::Wait(ms) => tick(State::ReadyForInstruction, q, d, now, ee, se, p) == tick(
                State::Sleeping { until: (now + ms) as i64 },
                q.drop_first(),
                d,
                now,
                ee,
                se,
                p,
            ),
            LevelEvent::WaitUntilNoEnemies => tick(State::ReadyForInstruction, q, d, now, ee, se, p)
                == (
                State::WaitUntilNoEnemies,
                q.drop_first(),
                d,
                Seq::<EnemyRecord>::empty(),
                Seq::<SpawnerRecord>::empty(),
                None::<ConfigError>,
            ),
            LevelEvent::SetDefaultIndicatorDuration(nd) => tick(
                State::ReadyForInstruction,
                q,
                d,
                now,
                ee,
                se,
                p,
            ) == tick(State::ReadyForInstruction, q.drop_first(), nd as int, now, ee, se, p),
            LevelEvent::Spawn(f) => match formation_error(f) {
                Some(e) => tick(State::ReadyForInstruction, q, d, now, ee, se, p) == (
                    State::ReadyForInstruction,
                    q.drop_first(),
                    d,
                    Seq::<EnemyRecord>::empty(),
                    Seq::<SpawnerRecord>::empty(),
                    Some(e),
                ),
                None => ({
                    let added = spawn_added(f, d, false, now, p);
                    let t = tick(State::ReadyForInstruction, q.drop_first(), d, now, ee, se, p);
                    tick(State::ReadyForInstruction, q, d, now, ee, se, p) == (
                        t.0,
                        t.1,
                        t.2,
                        added.0 + t.3,
                        added.1 + t.4,
                        t.5,
                    )
                }),
            },
            LevelEvent::CustomSpawn { formation, indicator_duration, follow_player } => match
            formation_error(formation) {
                Some(e) => tick(State::ReadyForInstruction, q, d, now, ee, se, p) == (
                    State::ReadyForInstruction,
                    q.drop_first(),
                    d,
                    Seq::<EnemyRecord>::empty(),
                    Seq::<SpawnerRecord>::empty(),
                    Some(e),
                ),
                None => ({
                    let added = spawn_added(
                        formation,
                        resolved_duration(indicator_duration, d),
                        follow_player,
                        now,
                        p,
                    );
                    let t = tick(State::ReadyForInstruction, q.drop_first(), d, now, ee, se, p);
                    tick(State::ReadyForInstruction, q, d, now, ee, se, p) == (
                        t.0,
                        t.1,
                        t.2,
                        added.0 + t.3,
                        added.1 + t.4,
                        t.5,
                    )
                }),
            },
        },
{
    reveal_with_fuel(tick, 1);
}

/// Stages one formation: expands it, applies the follow-player override,
/// and either fires every batch at once or defers each batch as a spawner
/// entity firing at `now + duration`.
fn spawn_formation(
    formation: Formation,
    duration: i64,
    follow_player: bool,
    now: i64,
    player_pos: Vec2,
    creator: &mut LazyCreator,
) -> (r: Result<(), ConfigError>)
    requires
        formation_wf(formation),
        -TIME_LIMIT <= now <= TIME_LIMIT,
        -TIME_LIMIT <= duration <= TIME_LIMIT,
        player_pos.bounded(GEOM_LIMIT as int),
    ensures
        r is Err <==> formation_error(formation) is Some,
        r matches Err(e) ==> formation_error(formation) == Some(e),
        r is Err ==> creator_unchanged(*old(creator), *final(creator)),
        r is Ok ==> spawn_effect(
            *old(creator),
            *final(creator),
            formation,
            duration as int,
            follow_player,
            now as int,
            player_pos,
        ),
{
    let ghost f = formation;
    match formation.get_spawners() {
        Err(e) => Err(e),
        Ok(spawners) => {
            let ghost all = spawners@;
            proof {
                assert(all == formation_spawners(f));
            }
            let mut rest = spawners;
            let ghost mut done: int = 0;
            while rest.len() > 0
                invariant
                    -TIME_LIMIT <= now <= TIME_LIMIT,
                    -TIME_LIMIT <= duration <= TIME_LIMIT,
                    player_pos.bounded(GEOM_LIMIT as int),
                    0 <= done <= all.len(),
                    rest@ == all.subrange(done, all.len() as int),
                    forall|k: int| 0 <= k < all.len() ==> spawner_fresh(#[trigger] all[k]),
                    duration <= 0 ==> creator.enemies@ == old(creator).enemies@ + fired_records(
                        all.take(done),
                        follow_player,
                        player_pos,
                    ) && creator.spawners@ == old(creator).spawners@,
                    duration > 0 ==> creator.enemies@ == old(creator).enemies@ && creator.spawners@
                        == old(creator).spawners@ + staged_records(
                        all.take(done),
                        follow_player,
                        now + duration,
                    ),
                decreases rest@.len(),
            {
                let sp = rest.remove(0);
                proof {
                    assert(sp == all[done]);
                    assert(rest@ =~= all.subrange(done + 1, all.len() as int));
                }
                let sp = if follow_player {
                    let sv = sp.calc_speed(Vec2 { x: 0, y: 0 });
                    let n = vec_norm(sv);
                    proof {
                        assert(crate::geometry::norm_sq(sv) >= 0 && crate::geometry::norm_sq(sv)
                            == (sv.x as int) * (sv.x as int) + (sv.y as int) * (sv.y as int))
                            by (nonlinear_arith);
                        crate::geometry::lemma_isqrt_val_correct(
                            crate::geometry::norm_sq(sv),
                        );
                        assert(n <= 1_500_000) by (nonlinear_arith)
                            requires
                                n >= 0,
                                (n as int) * (n as int) <= crate::geometry::norm_sq(sv),
                                crate::geometry::norm_sq(sv) == (sv.x as int) * (sv.x as int) + (
                                sv.y as int) * (sv.y as int),
                                -GEOM_LIMIT <= sv.x <= GEOM_LIMIT,
                                -GEOM_LIMIT <= sv.y <= GEOM_LIMIT,
                        ;
                    }
                    EnemySpawner {
                        position: sp.position,
                        spawn_speed: SpawnSpeed::AimAtPlayer { speed: n },
                        logic: sp.logic,
                        spawn_at: sp.spawn_at,
                    }
                } else {
                    sp
                };
                proof {
                    assert(sp == effective_spawner(all[done], follow_player));
                    assert(spawner_wf(sp));
                }
                if duration <= 0 {
                    sp.do_spawn(creator, player_pos);
                    proof {
                        assert(all.take(done + 1).drop_last() =~= all.take(done));
                        assert(all.take(done + 1).last() == all[done]);
                        assert(creator.enemies@ =~= old(creator).enemies@ + fired_records(
                            all.take(done + 1),
                            follow_player,
                            player_pos,
                        ));
                    }
                } else {
                    creator.create_spawner(
                        EnemySpawner {
                            position: sp.position,
                            spawn_speed: sp.spawn_speed,
                            logic: sp.logic,
                            spawn_at: now + duration,
                        },
                    );
                    proof {
                        assert(creator.spawners@ =~= old(creator).spawners@ + staged_records(
                            all.take(done + 1),
                            follow_player,
                            now + duration,
                        ));
                    }
                }
                proof {
                    done = done + 1;
                }
            }
            proof {
                assert(all.take(all.len() as int) =~= all);
            }
            Ok(())
        },
    }
}

/// The per-tick executor of one scripted level.
pub struct LevelExecutorSystem<L: Level> {
    /// The script this executor drains.
    pub level: L,
    /// Where the executor stands in its schedule.
    pub state: State,
    /// The session default telegraph duration, in milliseconds.
    pub indicator_duration: i64,
}

/// Rank of a state in one tick's progress: a woken or satisfied wait leads
/// to `ReadyForInstruction`, which leads to `Finished` once the script
/// ends; every other transition consumes a script event.
pub open spec fn state_rank(s: State) -> int {
    match s {
        State::Finished => 0,
        State::ReadyForInstruction => 1,
        State::Sleeping { .. } => 2,
        State::WaitUntilNoEnemies => 2,
    }
}

impl<L: Level> LevelExecutorSystem<L> {
    /// An executor at the start of the given level, with a one second
    /// default telegraph duration.
    pub fn new(level: L) -> (s: Self)
        ensures
            s.level == level,
            s.state == State::ReadyForInstruction,
            s.indicator_duration == 1000,
    {
        LevelExecutorSystem { level, state: State::ReadyForInstruction, indicator_duration: 1000 }
    }

    /// Applies one script event: the whole event-handling state machine.
    /// Returns the executor's next state; mutates only the session default
    /// duration and the command buffer, never `self.state` itself.
    pub fn handle_level_event(
        &mut self,
        event: Option<LevelEvent>,
        now: i64,
        player_pos: Vec2,
        creator: &mut LazyCreator,
    ) -> (r: Result<State, ConfigError>)
        requires
            event matches Some(e) ==> event_wf(e),
            -TIME_LIMIT <= now <= TIME_LIMIT,
            -TIME_LIMIT <= old(self).indicator_duration <= TIME_LIMIT,
            player_pos.bounded(GEOM_LIMIT as int),
        ensures
            final(self).state == old(self).state,
            final(self).level == old(self).level,
            -TIME_LIMIT <= final(self).indicator_duration <= TIME_LIMIT,
            match event {
                None => r == Ok::<State, ConfigError>(State::Finished) && creator_unchanged(
                    *old(creator),
                    *final(creator),
                ) && final(self).indicator_duration == old(self).indicator_duration,
                Some(LevelEvent::Wait(ms)) => r == Ok::<State, ConfigError>(
                    State::Sleeping { until: (now + ms) as i64 },
                ) && creator_unchanged(*old(creator), *final(creator)) && final(self).indicator_duration == old(self).indicator_duration,
                Some(LevelEvent::WaitUntilNoEnemies) => r == Ok::<State, ConfigError>(
                    State::WaitUntilNoEnemies,
                ) && creator_unchanged(*old(creator), *final(creator)) && final(self).indicator_duration == old(self).indicator_duration,
                Some(LevelEvent::SetDefaultIndicatorDuration(d)) => r == Ok::<State, ConfigError>(
                    State::ReadyForInstruction,
                ) && creator_unchanged(*old(creator), *final(creator)) && final(self).indicator_duration == d,
                Some(LevelEvent::Spawn(f)) => final(self).indicator_duration == old(self).indicator_duration && (match formation_error(f) {
                    Some(e) => r == Err::<State, ConfigError>(e) && creator_unchanged(
                        *old(creator),
                        *final(creator),
                    ),
                    None => r == Ok::<State, ConfigError>(State::ReadyForInstruction)
                        && spawn_effect(
                        *old(creator),
                        *final(creator),
                        f,
                        old(self).indicator_duration as int,
                        false,
                        now as int,
                        player_pos,
                    ),
                }),
                Some(
                    LevelEvent::CustomSpawn { formation, indicator_duration, follow_player },
                ) => final(self).indicator_duration == old(self).indicator_duration && (
                match formation_error(formation) {
                    Some(e) => r == Err::<State, ConfigError>(e) && creator_unchanged(
                        *old(creator),
                        *final(creator),
                    ),
                    None => r == Ok::<State, ConfigError>(State::ReadyForInstruction)
                        && spawn_effect(
                        *old(creator),
                        *final(creator),
                        formation,
                        resolved_duration(
                            indicator_duration,
                            old(self).indicator_duration as int,
                        ),
                        follow_player,
                        now as int,
                        player_pos,
                    ),
                }),
            },
    {
        match event {
            None => Ok(State::Finished),
            Some(LevelEvent::Wait(ms)) => Ok(State::Sleeping { until: now + ms }),
            Some(LevelEvent::WaitUntilNoEnemies) => Ok(State::WaitUntilNoEnemies),
            Some(LevelEvent::SetDefaultIndicatorDuration(d)) => {
                self.indicator_duration = d;
                Ok(State::ReadyForInstruction)
            },
            Some(LevelEvent::Spawn(f)) => {
                match spawn_formation(
                    f,
                    self.indicator_duration,
                    false,
                    now,
                    player_pos,
                    creator,
                ) {
                    Err(e) => Err(e),
                    Ok(()) => Ok(State::ReadyForInstruction),
                }
            },
            Some(LevelEvent::CustomSpawn { formation, indicator_duration, follow_player }) => {
                let duration = match indicator_duration {
                    Some(d) => d,
                    None => self.indicator_duration,
                };
                match spawn_formation(formation, duration, follow_player, now, player_pos, creator) {
                    Err(e) => Err(e),
                    Ok(()) => Ok(State::ReadyForInstruction),
                }
            },
        }
    }

    /// Pulls the next instruction and applies it: one `ReadyForInstruction`
    /// step of the tick fold.  `Ok(true)` means the executor just entered
    /// `WaitUntilNoEnemies` and the tick must yield; `Ok(false)` means the
    /// fold simply advanced; `Err` is a fatal configuration error.
    fn step_instruction(
        &mut self,
        now: i64,
        enemies_empty: bool,
        spawners_empty: bool,
        player_pos: Vec2,
        creator: &mut LazyCreator,
    ) -> (r: Result<bool, ConfigError>)
        requires
            old(self).state is ReadyForInstruction,
            -TIME_LIMIT <= now <= TIME_LIMIT,
            -TIME_LIMIT <= old(self).indicator_duration <= TIME_LIMIT,
            player_pos.bounded(GEOM_LIMIT as int),
        ensures
            -TIME_LIMIT <= final(self).indicator_duration <= TIME_LIMIT,
            ({
                let t = tick(
                    State::ReadyForInstruction,
                    old(self).level.queue(),
                    old(self).indicator_duration as int,
                    now as int,
                    enemies_empty,
                    spawners_empty,
                    player_pos,
                );
                let t2 = tick(
                    final(self).state,
                    final(self).level.queue(),
                    final(self).indicator_duration as int,
                    now as int,
                    enemies_empty,
                    spawners_empty,
                    player_pos,
                );
                match r {
                    Ok(entered_wait) => if entered_wait {
                        final(self).state is WaitUntilNoEnemies && t == (
                            State::WaitUntilNoEnemies,
                            final(self).level.queue(),
                            final(self).indicator_duration as int,
                            Seq::<EnemyRecord>::empty(),
                            Seq::<SpawnerRecord>::empty(),
                            None::<ConfigError>,
                        ) && creator_unchanged(*old(creator), *final(creator)) && final(self).level.queue().len() < old(self).level.queue().len()
                    } else {
                        t.0 == t2.0 && t.1 == t2.1 && t.2 == t2.2 && t.5 == t2.5 && old(creator).enemies@ + t.3 == final(creator).enemies@ + t2.3 && old(creator).spawners@ + t.4 == final(creator).spawners@ + t2.4 && !(final(self).state is WaitUntilNoEnemies) && (final(self).level.queue().len() < old(self).level.queue().len() || (final(self).level.queue() == old(self).level.queue() && final(self).state is Finished))
                    },
                    Err(e) => final(self).state is ReadyForInstruction && t == (
                        State::ReadyForInstruction,
                        final(self).level.queue(),
                        final(self).indicator_duration as int,
                        Seq::<EnemyRecord>::empty(),
                        Seq::<SpawnerRecord>::empty(),
                        Some(e),
                    ) && creator_unchanged(*old(creator), *final(creator)),
                }
            }),
    {
        let ghost q = self.level.queue();
        let ghost d = self.indicator_duration as int;
        let ghost b_enemies = creator.enemies@;
        let ghost b_spawners = creator.spawners@;
        proof {
            if q.len() == 0 {
                lemma_tick_exhausted(q, d, now as int, enemies_empty, spawners_empty, player_pos);
            } else {
                lemma_tick_event(q, d, now as int, enemies_empty, spawners_empty, player_pos);
            }
        }
        let event = self.level.next();
        match self.handle_level_event(event, now, player_pos, creator) {
            Err(e) => Err(e),
            Ok(st) => {
                self.state = st;
                proof {
                    if q.len() == 0 {
                        lemma_tick_blocked(
                            State::Finished,
                            q,
                            d,
                            now as int,
                            enemies_empty,
                            spawners_empty,
                            player_pos,
                        );
                    } else {
                        let rest = q.drop_first();
                        let t_after = tick(
                            State::ReadyForInstruction,
                            rest,
                            d,
                            now as int,
                            enemies_empty,
                            spawners_empty,
                            player_pos,
                        );
                        match q.first() {
                            LevelEvent::Spawn(f) => {
                                if formation_error(f) is None {
                                    let added = spawn_added(f, d, false, now as int, player_pos);
                                    assert(b_enemies + (added.0 + t_after.3) =~= (b_enemies
                                        + added.0) + t_after.3);
                                    assert(b_spawners + (added.1 + t_after.4) =~= (b_spawners
                                        + added.1) + t_after.4);
                                }
                            },
                            LevelEvent::CustomSpawn {
                                formation,
                                indicator_duration,
                                follow_player,
                            } => {
                                if formation_error(formation) is None {
                                    let added = spawn_added(
                                        formation,
                                        resolved_duration(indicator_duration, d),
                                        follow_player,
                                        now as int,
                                        player_pos,
                                    );
                                    assert(b_enemies + (added.0 + t_after.3) =~= (b_enemies
                                        + added.0) + t_after.3);
                                    assert(b_spawners + (added.1 + t_after.4) =~= (b_spawners
                                        + added.1) + t_after.4);
                                }
                            },
                            _ => {},
                        }
                    }
                }
                if st == State::WaitUntilNoEnemies {
                    Ok(true)
                } else {
                    Ok(false)
                }
            },
        }
    }

    /// One simulation tick.  Progresses the state machine until it blocks:
    /// a terminal script, an unexpired sleep, or a pending wait for a clear
    /// screen — including a wait entered this very tick, whose registry
    /// check is deferred to the next tick so that spawns deferred in this
    /// pass are seen.  The registry flags are sampled once per tick by the
    /// caller.  The whole tick equals the `tick` fold of the script: the
    /// state, queue and session default move to the fold's outcome, the
    /// fold's records are appended to the command buffer, and a fatal
    /// configuration error aborts the tick exactly where the fold says.
    #[verifier::rlimit(100)]
    pub fn run(
        &mut self,
        now: i64,
        enemies_empty: bool,
        spawners_empty: bool,
        player_pos: Vec2,
        creator: &mut LazyCreator,
    ) -> (r: Result<(), ConfigError>)
        requires
            -TIME_LIMIT <= now <= TIME_LIMIT,
            -TIME_LIMIT <= old(self).indicator_duration <= TIME_LIMIT,
            player_pos.bounded(GEOM_LIMIT as int),
        ensures
            -TIME_LIMIT <= final(self).indicator_duration <= TIME_LIMIT,
            ({
                let t = tick(
                    old(self).state,
                    old(self).level.queue(),
                    old(self).indicator_duration as int,
                    now as int,
                    enemies_empty,
                    spawners_empty,
                    player_pos,
                );
                &&& final(self).state == t.0
                &&& final(self).level.queue() == t.1
                &&& final(self).indicator_duration == t.2
                &&& final(creator).enemies@ == old(creator).enemies@ + t.3
                &&& final(creator).spawners@ == old(creator).spawners@ + t.4
                &&& r == (match t.5 {
                    Some(e) => Err::<(), ConfigError>(e),
                    None => Ok::<(), ConfigError>(()),
                })
            }),
            old(self).state is Finished ==> final(self).level == old(self).level && final(self).state == old(self).state && final(self).indicator_duration == old(self).indicator_duration && creator_unchanged(
                *old(creator),
                *final(creator),
            ) && r is Ok,
            (old(self).state matches State::Sleeping { until } && now < until) ==> final(self).level == old(self).level && final(self).state == old(self).state && final(self).indicator_duration == old(self).indicator_duration && creator_unchanged(*old(creator), *final(creator)) && r is Ok,
            (old(self).state is WaitUntilNoEnemies && !(enemies_empty && spawners_empty)) ==> final(self).level == old(self).level && final(self).state == old(self).state && final(self).indicator_duration == old(self).indicator_duration && creator_unchanged(*old(creator), *final(creator)) && r is Ok,
            r is Ok ==> !(final(self).state is ReadyForInstruction),
            r is Ok ==> (final(self).state matches State::Sleeping { until } ==> now < until),
            final(self).state is WaitUntilNoEnemies && enemies_empty && spawners_empty
                ==> final(self).level.queue().len() < old(self).level.queue().len(),
            r is Err ==> final(self).state is ReadyForInstruction,
    {
        let ghost t0 = tick(
            old(self).state,
            old(self).level.queue(),
            old(self).indicator_duration as int,
            now as int,
            enemies_empty,
            spawners_empty,
            player_pos,
        );
        loop
            invariant
                -TIME_LIMIT <= now <= TIME_LIMIT,
                -TIME_LIMIT <= self.indicator_duration <= TIME_LIMIT,
                player_pos.bounded(GEOM_LIMIT as int),
                self.level.queue().len() <= old(self).level.queue().len(),
                t0 == tick(
                    old(self).state,
                    old(self).level.queue(),
                    old(self).indicator_duration as int,
                    now as int,
                    enemies_empty,
                    spawners_empty,
                    player_pos,
                ),
                ({
                    let t = tick(
                        self.state,
                        self.level.queue(),
                        self.indicator_duration as int,
                        now as int,
                        enemies_empty,
                        spawners_empty,
                        player_pos,
                    );
                    &&& t0.0 == t.0
                    &&& t0.1 == t.1
                    &&& t0.2 == t.2
                    &&& old(creator).enemies@ + t0.3 == creator.enemies@ + t.3
                    &&& old(creator).spawners@ + t0.4 == creator.spawners@ + t.4
                    &&& t0.5 == t.5
                }),
                (old(self).state is Finished || (old(self).state matches State::Sleeping { until }
                    && now < until) || (old(self).state is WaitUntilNoEnemies && !(enemies_empty
                    && spawners_empty))) ==> self == old(self) && creator_unchanged(
                    *old(creator),
                    *creator,
                ),
            decreases self.level.queue().len(), state_rank(self.state),
        {
            match self.state {
                State::Finished => {
                    proof {
                        lemma_tick_blocked(
                            self.state,
                            self.level.queue(),
                            self.indicator_duration as int,
                            now as int,
                            enemies_empty,
                            spawners_empty,
                            player_pos,
                        );
                        assert(creator.enemies@ + Seq::<EnemyRecord>::empty() =~= creator.enemies@);
                        assert(creator.spawners@ + Seq::<SpawnerRecord>::empty()
                            =~= creator.spawners@);
                    }
                    return Ok(());
                },
                State::Sleeping { until } => {
                    if now >= until {
                        proof {
                            lemma_tick_progress(
                                self.state,
                                self.level.queue(),
                                self.indicator_duration as int,
                                now as int,
                                enemies_empty,
                                spawners_empty,
                                player_pos,
                            );
                        }
                        self.state = State::ReadyForInstruction;
                    } else {
                        proof {
                            lemma_tick_blocked(
                                self.state,
                                self.level.queue(),
                                self.indicator_duration as int,
                                now as int,
                                enemies_empty,
                                spawners_empty,
                                player_pos,
                            );
                            assert(creator.enemies@ + Seq::<EnemyRecord>::empty()
                                =~= creator.enemies@);
                            assert(creator.spawners@ + Seq::<SpawnerRecord>::empty()
                                =~= creator.spawners@);
                        }
                        return Ok(());
                    }
                },
                State::WaitUntilNoEnemies => {
                    if enemies_empty && spawners_empty {
                        proof {
                            lemma_tick_progress(
                                self.state,
                                self.level.queue(),
                                self.indicator_duration as int,
                                now as int,
                                enemies_empty,
                                spawners_empty,
                                player_pos,
                            );
                        }
                        self.state = State::ReadyForInstruction;
                    } else {
                        proof {
                            lemma_tick_blocked(
                                self.state,
                                self.level.queue(),
                                self.indicator_duration as int,
                                now as int,
                                enemies_empty,
                                spawners_empty,
                                player_pos,
                            );
                            assert(creator.enemies@ + Seq::<EnemyRecord>::empty()
                                =~= creator.enemies@);
                            assert(creator.spawners@ + Seq::<SpawnerRecord>::empty()
                                =~= creator.spawners@);
                        }
                        return Ok(());
                    }
                },
                State::ReadyForInstruction => {
                    match self.step_instruction(
                        now,
                        enemies_empty,
                        spawners_empty,
                        player_pos,
                        creator,
                    ) {
                        Err(e) => {
                            proof {
                                assert(creator.enemies@ + Seq::<EnemyRecord>::empty()
                                    =~= creator.enemies@);
                                assert(creator.spawners@ + Seq::<SpawnerRecord>::empty()
                                    =~= creator.spawners@);
                            }
                            return Err(e);
                        },
                        Ok(true) => {
                            // A spawner staged this tick is not yet visible
                            // to the registries; defer the emptiness check
                            // to the next tick.
                            proof {
                                assert(creator.enemies@ + Seq::<EnemyRecord>::empty()
                                    =~= creator.enemies@);
                                assert(creator.spawners@ + Seq::<SpawnerRecord>::empty()
                                    =~= creator.spawners@);
                            }
                            return Ok(());
                        },
                        Ok(false) => {},
                    }
                },
            }
        }
    }
}

} // verus!
