//! The per-tick gameplay passes: motion, screen-leave bookkeeping, particle
//! fading, spawner updates, player movement, and the split behavior of
//! destroyed `Double` balls.

pub mod gameplay;
pub mod player;

use vstd::prelude::*;

use crate::components::{
    percent_mille, Circle, Color, Moving, Particle, Transform, Triangle, TIME_LIMIT,
};
use crate::creator::{default_color_spec, EnemyRecord, LazyCreator};
use crate::geometry::{
    aim_from_to, aim_of, div_trunc, div_trunc_i64, rotate_vec, rotated, Vec2, GEOM_LIMIT, HEIGHT,
    POS_LIMIT, WIDTH,
};
use crate::reader::BallEnemy;
use crate::spawner::{
    calc_speed_vec, indicator_triangle, spawn_records, spawner_wf, EnemySpawner,
};

verus! {

/// Distance the player's ball travels per tick.
pub const PLAYER_SPEED: i64 = 10;

/// Largest per-tick timestep `on_destroy` accepts, in per-mille seconds.
pub const STEP_LIMIT: i64 = 10_000_000;

/// Where the player's ball currently is; the aim target of chasing spawns.
#[derive(Clone, Copy, Debug, PartialEq, Eq, Structural)]
pub struct PlayerPosition(pub Vec2);

impl Default for PlayerPosition {
    /// Before the first movement pass the player counts as sitting at the
    /// origin.
    fn default() -> (p: Self)
        ensures
            p == PlayerPosition(Vec2 { x: 0, y: 0 }),
    {
        PlayerPosition(Vec2 { x: 0, y: 0 })
    }
}

/// The per-tick motion pass: every entity that moves advances by its
/// velocity.
pub struct MovingSystem;

/// Adding `m` to `t` stays within the machine integers.
pub open spec fn advance_ok(t: Transform, m: Moving) -> bool {
    i64::MIN <= t.0.x + m.0.x <= i64::MAX && i64::MIN <= t.0.y + m.0.y <= i64::MAX
}

impl MovingSystem {
    /// Advances `transforms[i]` by `movings[i]`, pointwise.
    pub fn run(movings: &Vec<Moving>, transforms: &mut Vec<Transform>)
        requires
            movings@.len() == old(transforms)@.len(),
            forall|i: int|
                0 <= i < movings@.len() ==> advance_ok(old(transforms)@[i], #[trigger] movings@[i]),
        ensures
            final(transforms)@.len() == old(transforms)@.len(),
            forall|i: int|
                0 <= i < movings@.len() ==> (#[trigger] final(transforms)@[i]).0.x == old(
                    transforms,
                )@[i].0.x + movings@[i].0.x && final(transforms)@[i].0.y == old(transforms)@[i].0.y
                    + movings@[i].0.y,
    {
        let mut i: usize = 0;
        while i < movings.len()
            invariant
                movings@.len() == transforms@.len() == old(transforms)@.len(),
                0 <= i <= movings@.len(),
                forall|k: int|
                    0 <= k < movings@.len() ==> advance_ok(
                        old(transforms)@[k],
                        #[trigger] movings@[k],
                    ),
                forall|k: int|
                    i <= k < movings@.len() ==> #[trigger] transforms@[k] == old(transforms)@[k],
                forall|k: int|
                    0 <= k < i ==> (#[trigger] transforms@[k]).0.x == old(transforms)@[k].0.x
                        + movings@[k].0.x && transforms@[k].0.y == old(transforms)@[k].0.y
                        + movings@[k].0.y,
            decreases movings@.len() - i,
        {
            let t = transforms[i];
            let m = movings[i];
            transforms.set(i, Transform(Vec2 { x: t.0.x + m.0.x, y: t.0.y + m.0.y }));
            i = i + 1;
        }
    }
}

/// What the screen-leave pass decides for one entity.
#[derive(Clone, Copy, Debug, PartialEq, Eq, Structural)]
pub enum LeaveScreenAction {
    /// Nothing to do this tick.
    Keep,
    /// The circle is fully inside for the first time: remember that.
    MarkInScreen,
    /// The circle had entered the screen and has now fully left: kill it.
    Delete,
}

/// One shot-or-enemy circle as the screen-leave pass sees it.
#[derive(Clone, Copy, Debug, PartialEq, Eq, Structural)]
pub struct ScreenItem {
    pub transform: Transform,
    pub circle: Circle,
    /// Whether the circle has been seen inside the screen before.
    pub in_screen: bool,
}

/// The circle lies fully outside the screen rectangle.
pub open spec fn outside_screen(t: Transform, c: Circle) -> bool {
    t.0.x - c.radius > WIDTH || t.0.x + c.radius < 0 || t.0.y + c.radius < 0 || t.0.y - c.radius
        > HEIGHT
}

/// What the screen-leave pass does to one item: entities that leave the
/// screen die, but only after having entered it once (so enemies may spawn
/// outside).
pub open spec fn leave_screen_action(item: ScreenItem) -> LeaveScreenAction {
    if item.in_screen {
        if outside_screen(item.transform, item.circle) {
            LeaveScreenAction::Delete
        } else {
            LeaveScreenAction::Keep
        }
    } else {
        if !outside_screen(item.transform, item.circle) {
            LeaveScreenAction::MarkInScreen
        } else {
            LeaveScreenAction::Keep
        }
    }
}

/// The per-tick pass that kills circles which left the screen after having
/// entered it.
pub struct LeaveScreenSystem;

impl LeaveScreenSystem {
    /// Decides, for every shot or enemy, whether it dies, is newly marked
    /// as in-screen, or is left alone.
    pub fn run(items: &Vec<ScreenItem>) -> (actions: Vec<LeaveScreenAction>)
        requires
            forall|i: int|
                0 <= i < items@.len() ==> (#[trigger] items@[i]).transform.0.bounded(
                    POS_LIMIT as int,
                ) && -GEOM_LIMIT <= items@[i].circle.radius <= GEOM_LIMIT,
        ensures
            actions@.len() == items@.len(),
            forall|i: int|
                0 <= i < items@.len() ==> #[trigger] actions@[i] == leave_screen_action(
                    items@[i],
                ),
    {
        let mut actions: Vec<LeaveScreenAction> = Vec::new();
        let mut i: usize = 0;
        while i < items.len()
            invariant
                0 <= i <= items@.len(),
                actions@.len() == i,
                forall|k: int|
                    0 <= k < items@.len() ==> (#[trigger] items@[k]).transform.0.bounded(
                        POS_LIMIT as int,
                    ) && -GEOM_LIMIT <= items@[k].circle.radius <= GEOM_LIMIT,
                forall|k: int|
                    0 <= k < i ==> #[trigger] actions@[k] == leave_screen_action(items@[k]),
            decreases items@.len() - i,
        {
            let item = &items[i];
            let t = item.transform.0;
            let r = item.circle.radius;
            let outside = t.x - r > WIDTH || t.x + r < 0 || t.y + r < 0 || t.y - r > HEIGHT;
            let action = if item.in_screen {
                if outside {
                    LeaveScreenAction::Delete
                } else {
                    LeaveScreenAction::Keep
                }
            } else {
                if !outside {
                    LeaveScreenAction::MarkInScreen
                } else {
                    LeaveScreenAction::Keep
                }
            };
            actions.push(action);
            i = i + 1;
        }
        actions
    }
}

/// The per-tick pass that fades particles out and reaps the expired ones.
pub struct FadeSystem;

impl FadeSystem {
    /// Writes each particle's remaining opacity into its color; a particle
    /// whose lifetime has fully elapsed is flagged for deletion.
    pub fn run(now: i64, particles: &Vec<Particle>, colors: &mut Vec<Color>) -> (expired: Vec<
        bool,
    >)
        requires
            particles@.len() == old(colors)@.len(),
            -TIME_LIMIT <= now <= TIME_LIMIT,
            forall|i: int|
                0 <= i < particles@.len() ==> 0 < (#[trigger] particles@[i]).lifetime <= TIME_LIMIT
                    && -TIME_LIMIT <= particles@[i].created <= TIME_LIMIT,
        ensures
            final(colors)@.len() == old(colors)@.len(),
            expired@.len() == particles@.len(),
            forall|i: int|
                0 <= i < particles@.len() ==> {
                    let p = percent_mille(
                        particles@[i].created as int,
                        particles@[i].lifetime as int,
                        now as int,
                    );
                    (#[trigger] final(colors)@[i]) == (Color {
                        a: (1000 - p) as i64,
                        ..old(colors)@[i]
                    }) && expired@[i] == (p == 1000)
                },
    {
        let mut expired: Vec<bool> = Vec::new();
        let mut i: usize = 0;
        while i < particles.len()
            invariant
                particles@.len() == colors@.len() == old(colors)@.len(),
                0 <= i <= particles@.len(),
                expired@.len() == i,
                -TIME_LIMIT <= now <= TIME_LIMIT,
                forall|k: int|
                    0 <= k < particles@.len() ==> 0 < (#[trigger] particles@[k]).lifetime
                        <= TIME_LIMIT && -TIME_LIMIT <= particles@[k].created <= TIME_LIMIT,
                forall|k: int|
                    i <= k < particles@.len() ==> #[trigger] colors@[k] == old(colors)@[k],
                forall|k: int|
                    0 <= k < i ==> {
                        let p = percent_mille(
                            particles@[k].created as int,
                            particles@[k].lifetime as int,
                            now as int,
                        );
                        (#[trigger] colors@[k]) == (Color {
                            a: (1000 - p) as i64,
                            ..old(colors)@[k]
                        }) && expired@[k] == (p == 1000)
                    },
            decreases particles@.len() - i,
        {
            let p = particles[i].percent(now);
            let c = colors[i];
            colors.set(i, Color { r: c.r, g: c.g, b: c.b, a: 1000 - p });
            expired.push(p == 1000);
            i = i + 1;
        }
        expired
    }
}

/// Enemy records created by the spawners whose timestamps have elapsed,
/// in order.
pub open spec fn due_records(spawners: Seq<EnemySpawner>, now: int, player_pos: Vec2) -> Seq<
    EnemyRecord,
>
    decreases spawners.len(),
{
    if spawners.len() == 0 {
        Seq::empty()
    } else {
        let s = spawners.last();
        due_records(spawners.drop_last(), now, player_pos) + if s.spawn_at <= now {
            spawn_records(s.logic, s.position, calc_speed_vec(s, player_pos))
        } else {
            Seq::empty()
        }
    }
}

/// The per-tick spawner pass: firing due spawners, refreshing the
/// telegraph indicators of the rest.
pub struct EnemySpawnerSystem;

impl EnemySpawnerSystem {
    /// Fires every spawner whose timestamp has come (flagging it for
    /// deletion), and recomputes the telegraph triangle of every other
    /// spawner from its current aim.
    pub fn run(
        now: i64,
        player_pos: Vec2,
        spawners: &Vec<EnemySpawner>,
        triangles: &mut Vec<Triangle>,
        creator: &mut LazyCreator,
    ) -> (fired: Vec<bool>)
        requires
            spawners@.len() == old(triangles)@.len(),
            player_pos.bounded(GEOM_LIMIT as int),
            forall|i: int| 0 <= i < spawners@.len() ==> spawner_wf(#[trigger] spawners@[i]),
        ensures
            final(triangles)@.len() == old(triangles)@.len(),
            fired@.len() == spawners@.len(),
            final(creator).enemies@ == old(creator).enemies@ + due_records(
                spawners@,
                now as int,
                player_pos,
            ),
            final(creator).spawners@ == old(creator).spawners@,
            forall|i: int|
                0 <= i < spawners@.len() ==> #[trigger] fired@[i] == (spawners@[i].spawn_at
                    <= now),
            forall|i: int|
                0 <= i < spawners@.len() ==> #[trigger] final(triangles)@[i] == (
                if spawners@[i].spawn_at <= now {
                    old(triangles)@[i]
                } else {
                    indicator_triangle(spawners@[i], player_pos)
                }),
    {
        let mut fired: Vec<bool> = Vec::new();
        let mut i: usize = 0;
        while i < spawners.len()
            invariant
                spawners@.len() == triangles@.len() == old(triangles)@.len(),
                0 <= i <= spawners@.len(),
                fired@.len() == i,
                player_pos.bounded(GEOM_LIMIT as int),
                forall|k: int| 0 <= k < spawners@.len() ==> spawner_wf(#[trigger] spawners@[k]),
                creator.enemies@ == old(creator).enemies@ + due_records(
                    spawners@.take(i as int),
                    now as int,
                    player_pos,
                ),
                creator.spawners@ == old(creator).spawners@,
                forall|k: int|
                    0 <= k < i ==> #[trigger] fired@[k] == (spawners@[k].spawn_at <= now),
                forall|k: int|
                    i <= k < spawners@.len() ==> #[trigger] triangles@[k] == old(triangles)@[k],
                forall|k: int|
                    0 <= k < i ==> #[trigger] triangles@[k] == (if spawners@[k].spawn_at <= now {
                        old(triangles)@[k]
                    } else {
                        indicator_triangle(spawners@[k], player_pos)
                    }),
            decreases spawners@.len() - i,
        {
            let sp = &spawners[i];
            if sp.spawn_at <= now {
                sp.do_spawn(creator, player_pos);
                fired.push(true);
            } else {
                let mut tri = triangles[i];
                sp.adjust_indicator(&mut tri, player_pos);
                triangles.set(i, tri);
                fired.push(false);
            }
            proof {
                assert(spawners@.take(i + 1).drop_last() =~= spawners@.take(i as int));
                assert(spawners@.take(i + 1).last() == spawners@[i as int]);
                assert(creator.enemies@ =~= old(creator).enemies@ + due_records(
                    spawners@.take(i + 1),
                    now as int,
                    player_pos,
                ));
            }
            i = i + 1;
        }
        proof {
            assert(spawners@.take(spawners@.len() as int) =~= spawners@);
        }
        fired
    }
}

/// The per-tick player movement pass.
pub struct MoveSystem;

impl MoveSystem {
    /// Moves the player's ball a fixed step along the input direction (the
    /// two axis readings, up to one unit each in per-mille), and publishes
    /// the new position.  A centered stick leaves the ball in place.
    pub fn run(
        axis_x: i64,
        axis_y: i64,
        transform: &mut Transform,
        player_pos: &mut PlayerPosition,
    )
        requires
            -1000 <= axis_x <= 1000,
            -1000 <= axis_y <= 1000,
            old(transform).0.bounded(POS_LIMIT as int),
        ensures
            axis_x == 0 && axis_y == 0 ==> *final(transform) == *old(transform),
            axis_x != 0 || axis_y != 0 ==> {
                let step = aim_of(
                    Vec2 { x: 0, y: 0 },
                    Vec2 { x: axis_x, y: (-axis_y) as i64 },
                    PLAYER_SPEED as int,
                );
                final(transform).0.x == old(transform).0.x + step.0 && final(transform).0.y == old(
                    transform,
                ).0.y + step.1
            },
            *final(player_pos) == PlayerPosition(final(transform).0),
    {
        if axis_x != 0 || axis_y != 0 {
            let dir = Vec2 { x: axis_x, y: -axis_y };
            let step = aim_from_to(Vec2 { x: 0, y: 0 }, dir, PLAYER_SPEED);
            *transform = Transform(
                Vec2 { x: transform.0.x + step.x, y: transform.0.y + step.y },
            );
        }
        *player_pos = PlayerPosition(transform.0);
    }
}

/// The two children of a destroyed `Double` ball: `Simple` balls at 60% of
/// the parent's radius, deflected by `angle` millidegrees from the
/// parent's velocity and advanced one timestep forward.
pub open spec fn split_child(t: Transform, m: Moving, c: Circle, dt_mille: int, angle: int) -> EnemyRecord {
    let child_speed = rotated(m.0, angle);
    EnemyRecord {
        enemy: BallEnemy::Simple,
        color: default_color_spec(BallEnemy::Simple),
        circle: Circle { radius: div_trunc(c.radius * 3, 5) as i64 },
        transform: Transform(
            Vec2 {
                x: (t.0.x + div_trunc(m.0.x * dt_mille, 1000)) as i64,
                y: (t.0.y + div_trunc(m.0.y * dt_mille, 1000)) as i64,
            },
        ),
        moving: Moving(Vec2 { x: child_speed.0 as i64, y: child_speed.1 as i64 }),
    }
}

impl BallEnemy {
    /// What a ball leaves behind when destroyed by a shot: a `Simple` ball
    /// vanishes; a `Double` ball splits into two `Simple` children
    /// deflected fifteen degrees to either side of its velocity, one
    /// timestep ahead of the parent.
    pub fn on_destroy(
        &self,
        creator: &mut LazyCreator,
        transform: &Transform,
        moving: &Moving,
        circle: &Circle,
        dt_mille: i64,
    )
        requires
            transform.0.bounded(POS_LIMIT as int),
            moving.0.bounded(POS_LIMIT as int),
            0 <= circle.radius <= GEOM_LIMIT,
            0 <= dt_mille <= STEP_LIMIT,
        ensures
            *self is Simple ==> final(creator).enemies@ == old(creator).enemies@,
            *self is Double ==> final(creator).enemies@ == old(creator).enemies@ + seq![
                split_child(*transform, *moving, *circle, dt_mille as int, -15_000),
                split_child(*transform, *moving, *circle, dt_mille as int, 15_000),
            ],
            final(creator).spawners@ == old(creator).spawners@,
    {
        match self {
            BallEnemy::Simple => {},
            BallEnemy::Double => {
                proof {
                    assert(-(POS_LIMIT as int * 10_000_000) <= moving.0.x * dt_mille
                        <= POS_LIMIT as int * 10_000_000 && -(POS_LIMIT as int * 10_000_000)
                        <= moving.0.y * dt_mille <= POS_LIMIT as int * 10_000_000)
                        by (nonlinear_arith)
                        requires
                            -POS_LIMIT <= moving.0.x <= POS_LIMIT,
                            -POS_LIMIT <= moving.0.y <= POS_LIMIT,
                            0 <= dt_mille <= 10_000_000,
                    ;
                    crate::geometry::lemma_div_trunc_abs_le(
                        moving.0.x * dt_mille,
                        1000,
                        POS_LIMIT as int * 10_000_000,
                    );
                    crate::geometry::lemma_div_trunc_abs_le(
                        moving.0.y * dt_mille,
                        1000,
                        POS_LIMIT as int * 10_000_000,
                    );
                }
                let px = transform.0.x + div_trunc_i64(moving.0.x * dt_mille, 1000);
                let py = transform.0.y + div_trunc_i64(moving.0.y * dt_mille, 1000);
                let child_circle = Circle { radius: div_trunc_i64(circle.radius * 3, 5) };
                let left = rotate_vec(moving.0, -15_000);
                let right = rotate_vec(moving.0, 15_000);
                creator.create_enemy(
                    BallEnemy::Simple,
                    child_circle,
                    Transform(Vec2 { x: px, y: py }),
                    Moving(left),
                );
                creator.create_enemy(
                    BallEnemy::Simple,
                    child_circle,
                    Transform(Vec2 { x: px, y: py }),
                    Moving(right),
                );
                proof {
                    assert(final(creator).enemies@ =~= old(creator).enemies@ + seq![
                        split_child(*transform, *moving, *circle, dt_mille as int, -15_000),
                        split_child(*transform, *moving, *circle, dt_mille as int, 15_000),
                    ]);
                }
            },
        }
    }
}

} // verus!
