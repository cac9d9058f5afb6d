//! Pending spawns: a staged, time-delayed enemy creation record with its
//! telegraph indicator.

use vstd::prelude::*;

use crate::components::{Circle, Moving, Transform, Triangle};
use crate::creator::{default_color_spec, EnemyRecord, LazyCreator};
use crate::geometry::{
    aim_from_to, aim_of, div_trunc, div_trunc_i64, unit_of, unit_scaled, Vec2, DIR_SCALE,
    GEOM_LIMIT, HEIGHT, POS_LIMIT, WIDTH,
};
use crate::reader::BallEnemy;

verus! {

/// Margin the telegraph indicator keeps from the screen border.
pub const INDICATOR_MARGIN: i64 = 20;

/// Half-length of the telegraph indicator arrow.
pub const INDICATOR_SIZE: i64 = 18;

/// Bound on the components of a stored fixed velocity; small enough that
/// the norm of any such velocity stays within `POS_LIMIT`.
pub const SPEED_LIMIT: i64 = 1_000_000_000;

/// How a pending spawn decides the velocity of the enemies it creates.
#[derive(Clone, Copy, Debug, PartialEq, Eq, Structural)]
pub enum SpawnSpeed {
    /// A velocity fixed when the formation was expanded.
    Fixed(Vec2),
    /// Aim at the player's position at firing time, at this scalar speed.
    AimAtPlayer { speed: i64 },
}

/// What a pending spawn materializes when it fires: the closed set of
/// creation strategies.
#[derive(Clone, Debug, PartialEq, Eq)]
pub enum EnemySpawnerLogic {
    /// One enemy of the given kind and radius.
    Single { enemy: BallEnemy, radius: i64 },
    /// `amount` enemies trailing behind the spawn position against the
    /// direction of travel, kinds cycled from `enemies`.
    Multiple { enemies: Vec<BallEnemy>, amount: u16, spacing: i64, radius: i64 },
}

/// A staged, not-yet-materialized enemy batch.
#[derive(Clone, Debug, PartialEq, Eq)]
pub struct EnemySpawner {
    /// Where the batch appears.
    pub position: Vec2,
    /// How the batch's velocity is decided at firing time.
    pub spawn_speed: SpawnSpeed,
    /// What the batch creates.
    pub logic: EnemySpawnerLogic,
    /// Millisecond timestamp at which the batch fires.
    pub spawn_at: i64,
}

/// The speed strategy stays within the machine bounds.
pub open spec fn spawn_speed_wf(s: SpawnSpeed) -> bool {
    match s {
        SpawnSpeed::Fixed(v) => v.bounded(SPEED_LIMIT as int),
        SpawnSpeed::AimAtPlayer { speed } => -POS_LIMIT <= speed <= POS_LIMIT,
    }
}

/// The creation strategy stays within the machine bounds, and a cycled
/// enemy list is only empty when nothing is spawned from it.
pub open spec fn logic_wf(l: EnemySpawnerLogic) -> bool {
    match l {
        EnemySpawnerLogic::Single { enemy, radius } => -GEOM_LIMIT <= radius <= GEOM_LIMIT,
        EnemySpawnerLogic::Multiple { enemies, amount, spacing, radius } => -GEOM_LIMIT <= radius
            <= GEOM_LIMIT && -GEOM_LIMIT <= spacing <= GEOM_LIMIT && (amount > 0 ==> enemies@.len()
            > 0),
    }
}

/// A well-formed pending spawn.
pub open spec fn spawner_wf(s: EnemySpawner) -> bool {
    s.position.bounded(POS_LIMIT as int) && spawn_speed_wf(s.spawn_speed) && logic_wf(s.logic)
}

/// A spawner as a formation expansion hands it out: well formed, its
/// velocity still a fixed geometry-sized vector, its fire timestamp not yet
/// assigned.
pub open spec fn spawner_fresh(s: EnemySpawner) -> bool {
    spawner_wf(s) && (s.spawn_speed matches SpawnSpeed::Fixed(v) && v.bounded(GEOM_LIMIT as int))
        && s.spawn_at == 0
}

/// The velocity a spawner resolves at firing time: a `Fixed` strategy keeps
/// its vector, `AimAtPlayer` points toward the player (straight down the
/// screen when the player sits exactly on the spawner).
pub open spec fn calc_speed_spec(s: EnemySpawner, player_pos: Vec2) -> (int, int) {
    match s.spawn_speed {
        SpawnSpeed::Fixed(v) => (v.x as int, v.y as int),
        SpawnSpeed::AimAtPlayer { speed } => aim_of(s.position, player_pos, speed as int),
    }
}

/// `calc_speed_spec` packed back into a vector.
pub open spec fn calc_speed_vec(s: EnemySpawner, player_pos: Vec2) -> Vec2 {
    let (x, y) = calc_speed_spec(s, player_pos);
    Vec2 { x: x as i64, y: y as i64 }
}

/// The enemy used for index `i` of a cycled kind list.
pub open spec fn cycled_enemy(enemies: Seq<BallEnemy>, i: int) -> BallEnemy {
    enemies[i % enemies.len() as int]
}

/// Displacement of the `i`-th trailing enemy of a `Multiple` strategy: `i`
/// diameters-plus-spacings against the unit direction of travel.
pub open spec fn multiple_offset(speed: Vec2, spacing: int, radius: int, i: int) -> (int, int) {
    let u = unit_of(speed);
    let k = i * (spacing + 2 * radius);
    (div_trunc(u.0 * k, DIR_SCALE as int), div_trunc(u.1 * k, DIR_SCALE as int))
}

/// The exact list of enemy records a strategy appends to the command buffer
/// when it fires at `pos` with velocity `speed`.
pub open spec fn spawn_records(logic: EnemySpawnerLogic, pos: Vec2, speed: Vec2) -> Seq<
    EnemyRecord,
> {
    match logic {
        EnemySpawnerLogic::Single { enemy, radius } => seq![
            EnemyRecord {
                enemy,
                color: default_color_spec(enemy),
                circle: Circle { radius },
                transform: Transform(pos),
                moving: Moving(speed),
            },
        ],
        EnemySpawnerLogic::Multiple { enemies, amount, spacing, radius } => Seq::new(
            amount as nat,
            |i: int|
                EnemyRecord {
                    enemy: cycled_enemy(enemies@, i),
                    color: default_color_spec(cycled_enemy(enemies@, i)),
                    circle: Circle { radius },
                    transform: Transform(
                        Vec2 {
                            x: (pos.x - multiple_offset(speed, spacing as int, radius as int, i).0) as i64,
                            y: (pos.y - multiple_offset(speed, spacing as int, radius as int, i).1) as i64,
                        },
                    ),
                    moving: Moving(speed),
                },
        ),
    }
}

impl EnemySpawnerLogic {
    /// Materializes this strategy's enemies at `pos` with velocity `speed`
    /// into the command buffer.
    pub fn do_spawn(&self, creator: &mut LazyCreator, pos: Vec2, speed: Vec2)
        requires
            logic_wf(*self),
            pos.bounded(POS_LIMIT as int),
            speed.bounded(POS_LIMIT as int),
        ensures
            final(creator).enemies@ == old(creator).enemies@ + spawn_records(*self, pos, speed),
            final(creator).spawners@ == old(creator).spawners@,
    {
        match self {
            EnemySpawnerLogic::Single { enemy, radius } => {
                creator.create_enemy(
                    *enemy,
                    Circle::with_radius(*radius),
                    Transform(pos),
                    Moving(speed),
                );
                proof {
                    assert(final(creator).enemies@ =~= old(creator).enemies@ + spawn_records(
                        *self,
                        pos,
                        speed,
                    ));
                }
            },
            EnemySpawnerLogic::Multiple { enemies, amount, spacing, radius } => {
                let u = unit_scaled(speed);
                let ghost records = spawn_records(*self, pos, speed);
                let step = *spacing + 2 * *radius;
                let mut i: u16 = 0;
                while i < *amount
                    invariant
                        logic_wf(*self),
                        *self == (EnemySpawnerLogic::Multiple {
                            enemies: *enemies,
                            amount: *amount,
                            spacing: *spacing,
                            radius: *radius,
                        }),
                        0 <= i <= *amount,
                        step == *spacing + 2 * *radius,
                        u.x == unit_of(speed).0,
                        u.y == unit_of(speed).1,
                        u.bounded(DIR_SCALE as int),
                        pos.bounded(POS_LIMIT as int),
                        speed.bounded(POS_LIMIT as int),
                        records == spawn_records(*self, pos, speed),
                        creator.enemies@ == old(creator).enemies@ + records.take(i as int),
                        creator.spawners@ == old(creator).spawners@,
                    decreases *amount - i,
                {
                    proof {
                        assert(enemies@.len() > 0);
                    }
                    let idx = (i as usize) % enemies.len();
                    proof {
                        assert(-(3 * GEOM_LIMIT as int * 0x1_0000) <= (i as int) * step <= 3
                            * GEOM_LIMIT as int * 0x1_0000) by (nonlinear_arith)
                            requires
                                0 <= i < 0x1_0000,
                                -(3 * GEOM_LIMIT) <= step <= 3 * GEOM_LIMIT,
                        ;
                    }
                    let k = (i as i64) * step;
                    let ghost km: int = 3 * GEOM_LIMIT as int * 0x1_0000;
                    proof {
                        assert(-(DIR_SCALE as int * km) <= u.x * k <= DIR_SCALE as int * km && -(
                        DIR_SCALE as int * km) <= u.y * k <= DIR_SCALE as int * km)
                            by (nonlinear_arith)
                            requires
                                km == 3 * GEOM_LIMIT as int * 0x1_0000,
                                -km <= k <= km,
                                -DIR_SCALE <= u.x <= DIR_SCALE,
                                -DIR_SCALE <= u.y <= DIR_SCALE,
                        ;
                        crate::geometry::lemma_div_trunc_abs_le(u.x * k, DIR_SCALE as int, km);
                        crate::geometry::lemma_div_trunc_abs_le(u.y * k, DIR_SCALE as int, km);
                    }
                    let dx = div_trunc_i64(u.x * k, DIR_SCALE);
                    let dy = div_trunc_i64(u.y * k, DIR_SCALE);
                    creator.create_enemy(
                        enemies[idx],
                        Circle::with_radius(*radius),
                        Transform(Vec2 { x: pos.x - dx, y: pos.y - dy }),
                        Moving(speed),
                    );
                    proof {
                        assert(idx == (i as int) % enemies@.len() as int);
                        assert(records.take(i + 1) =~= records.take(i as int).push(
                            records[i as int],
                        ));
                        assert(creator.enemies@ =~= old(creator).enemies@ + records.take(i + 1));
                    }
                    i = i + 1;
                }
                proof {
                    assert(records.take(*amount as int) =~= records);
                }
            },
        }
    }
}

impl EnemySpawner {
    /// The velocity this spawner would fire with right now, given the
    /// player's position.
    pub fn calc_speed(&self, player_pos: Vec2) -> (v: Vec2)
        requires
            spawner_wf(*self),
            player_pos.bounded(GEOM_LIMIT as int),
        ensures
            v == calc_speed_vec(*self, player_pos),
            v.bounded(POS_LIMIT as int),
    {
        match &self.spawn_speed {
            SpawnSpeed::Fixed(v) => *v,
            SpawnSpeed::AimAtPlayer { speed } => aim_from_to(self.position, player_pos, *speed),
        }
    }

    /// Fires this spawner: materializes its enemies into the command
    /// buffer, aimed with the player's current position.
    pub fn do_spawn(&self, creator: &mut LazyCreator, player_pos: Vec2)
        requires
            spawner_wf(*self),
            player_pos.bounded(GEOM_LIMIT as int),
        ensures
            final(creator).enemies@ == old(creator).enemies@ + spawn_records(
                self.logic,
                self.position,
                calc_speed_vec(*self, player_pos),
            ),
            final(creator).spawners@ == old(creator).spawners@,
    {
        let speed = self.calc_speed(player_pos);
        self.logic.do_spawn(creator, self.position, speed);
    }

    /// Recomputes this spawner's telegraph indicator for the current aim.
    pub fn adjust_indicator(&self, triangle: &mut Triangle, player_pos: Vec2)
        requires
            spawner_wf(*self),
            player_pos.bounded(GEOM_LIMIT as int),
        ensures
            *final(triangle) == indicator_triangle(*self, player_pos),
    {
        let cx = clamp_i64(self.position.x, INDICATOR_MARGIN, WIDTH - INDICATOR_MARGIN);
        let cy = clamp_i64(self.position.y, INDICATOR_MARGIN, HEIGHT - INDICATOR_MARGIN);
        let u = unit_scaled(self.calc_speed(player_pos));
        let tx = div_trunc_i64(u.x * INDICATOR_SIZE, DIR_SCALE);
        let ty = div_trunc_i64(u.y * INDICATOR_SIZE, DIR_SCALE);
        let px = div_trunc_i64(-u.y * (INDICATOR_SIZE / 2), DIR_SCALE);
        let py = div_trunc_i64(u.x * (INDICATOR_SIZE / 2), DIR_SCALE);
        proof {
            crate::geometry::lemma_div_trunc_abs_le(
                u.x * INDICATOR_SIZE,
                DIR_SCALE as int,
                INDICATOR_SIZE as int,
            );
            crate::geometry::lemma_div_trunc_abs_le(
                u.y * INDICATOR_SIZE,
                DIR_SCALE as int,
                INDICATOR_SIZE as int,
            );
            crate::geometry::lemma_div_trunc_abs_le(
                -u.y * (INDICATOR_SIZE / 2),
                DIR_SCALE as int,
                INDICATOR_SIZE as int,
            );
            crate::geometry::lemma_div_trunc_abs_le(
                u.x * (INDICATOR_SIZE / 2),
                DIR_SCALE as int,
                INDICATOR_SIZE as int,
            );
        }
        *triangle = Triangle {
            a: Vec2 { x: cx + tx, y: cy + ty },
            b: Vec2 { x: cx - tx + px, y: cy - ty + py },
            c: Vec2 { x: cx - tx - px, y: cy - ty - py },
        };
    }
}

/// `v` clamped into `[lo, hi]`.
pub open spec fn clamp_spec(v: int, lo: int, hi: int) -> int {
    if v < lo {
        lo
    } else if v > hi {
        hi
    } else {
        v
    }
}

/// Clamps `v` into `[lo, hi]`.
pub fn clamp_i64(v: i64, lo: i64, hi: i64) -> (c: i64)
    requires
        lo <= hi,
    ensures
        c == clamp_spec(v as int, lo as int, hi as int),
{
    if v < lo {
        lo
    } else if v > hi {
        hi
    } else {
        v
    }
}

/// The telegraph arrow of a pending spawn: its center is the spawn position
/// clamped into the screen margins; the tip points one `INDICATOR_SIZE`
/// along the current aim, and the two back corners sit one size behind the
/// center, half a size apart along the perpendicular.
pub open spec fn indicator_triangle(s: EnemySpawner, player_pos: Vec2) -> Triangle {
    let cx = clamp_spec(s.position.x as int, INDICATOR_MARGIN as int, WIDTH - INDICATOR_MARGIN);
    let cy = clamp_spec(s.position.y as int, INDICATOR_MARGIN as int, HEIGHT - INDICATOR_MARGIN);
    let u = unit_of(calc_speed_vec(s, player_pos));
    let tx = div_trunc(u.0 * INDICATOR_SIZE, DIR_SCALE as int);
    let ty = div_trunc(u.1 * INDICATOR_SIZE, DIR_SCALE as int);
    let px = div_trunc(-u.1 * (INDICATOR_SIZE as int / 2), DIR_SCALE as int);
    let py = div_trunc(u.0 * (INDICATOR_SIZE as int / 2), DIR_SCALE as int);
    Triangle {
        a: Vec2 { x: (cx + tx) as i64, y: (cy + ty) as i64 },
        b: Vec2 { x: (cx - tx + px) as i64, y: (cy - ty + py) as i64 },
        c: Vec2 { x: (cx - tx - px) as i64, y: (cy - ty - py) as i64 },
    }
}

} // verus!
