//! The player-side passes: dying on enemy contact, and shooting toward
//! the mouse.

use vstd::prelude::*;

use crate::components::{collides, collides_spec, Circle, Color, Moving, Transform, TIME_LIMIT};
use crate::geometry::{div_trunc, div_trunc_i64, unit_of, unit_scaled, Vec2, DIR_SCALE, GEOM_LIMIT, POS_LIMIT};
use crate::systems::gameplay::{collider_ok, Collider};

verus! {

/// Milliseconds between two shots.
pub const SHOT_INTERVAL: i64 = 180;

/// Distance a shot travels per tick.
pub const SHOT_SPEED: i64 = 20;

/// Radius of a shot's circle.
pub const SHOT_RADIUS: i64 = 5;

/// The pass that checks the player's ball against the live enemies.
pub struct CollisionSystem;

impl CollisionSystem {
    /// Whether the player's ball touches any live enemy, with a small
    /// grace gap; a touch kills the player (the explosion it leaves is the
    /// excluded particle system's business).
    pub fn run(player: &Collider, enemies: &Vec<Collider>) -> (dead: bool)
        requires
            collider_ok(*player),
            forall|j: int| 0 <= j < enemies@.len() ==> collider_ok(#[trigger] enemies@[j]),
        ensures
            dead == exists|j: int|
                0 <= j < enemies@.len() && collides_spec(
                    player.transform,
                    player.circle,
                    (#[trigger] enemies@[j]).transform,
                    enemies@[j].circle,
                    2,
                ),
    {
        let mut j: usize = 0;
        while j < enemies.len()
            invariant
                collider_ok(*player),
                forall|m: int| 0 <= m < enemies@.len() ==> collider_ok(#[trigger] enemies@[m]),
                j <= enemies@.len(),
                forall|m: int|
                    0 <= m < j ==> !collides_spec(
                        player.transform,
                        player.circle,
                        (#[trigger] enemies@[m]).transform,
                        enemies@[m].circle,
                        2,
                    ),
            decreases enemies@.len() - j,
        {
            let enemy = &enemies[j];
            if collides(
                &player.transform,
                &player.circle,
                &enemy.transform,
                &enemy.circle,
                2,
            ) {
                return true;
            }
            j = j + 1;
        }
        false
    }
}

/// A freshly fired shot, ready for the command buffer; a shot counts as
/// in-screen from birth, so it may die the moment it leaves.
#[derive(Clone, Copy, Debug, PartialEq, Eq, Structural)]
pub struct ShotRecord {
    pub transform: Transform,
    pub circle: Circle,
    pub color: Color,
    pub moving: Moving,
}

/// Unit direction from the player's center toward the mouse, scaled by
/// `DIR_SCALE`; a click exactly on the center falls back to straight down.
pub open spec fn shot_dir(center: Vec2, mouse: Vec2) -> (int, int) {
    unit_of(Vec2 { x: (mouse.x - center.x) as i64, y: (mouse.y - center.y) as i64 })
}

/// The shot a click fires: it starts on the player's border toward the
/// mouse (one shot radius inside it) and travels at `SHOT_SPEED` the same
/// way.
pub open spec fn shot_of(center: Vec2, radius: int, mouse: Vec2) -> ShotRecord {
    let u = shot_dir(center, mouse);
    ShotRecord {
        transform: Transform(
            Vec2 {
                x: (center.x + div_trunc(u.0 * (radius - SHOT_RADIUS), DIR_SCALE as int)) as i64,
                y: (center.y + div_trunc(u.1 * (radius - SHOT_RADIUS), DIR_SCALE as int)) as i64,
            },
        ),
        circle: Circle { radius: SHOT_RADIUS },
        color: Color { r: 100, g: 100, b: 900, a: 1000 },
        moving: Moving(
            Vec2 {
                x: div_trunc(u.0 * SHOT_SPEED, DIR_SCALE as int) as i64,
                y: div_trunc(u.1 * SHOT_SPEED, DIR_SCALE as int) as i64,
            },
        ),
    }
}

/// The pass that fires a shot from the player toward the mouse while the
/// shoot action is held, at most one per `SHOT_INTERVAL`.
pub struct ShootSystem {
    /// When the last shot left, in milliseconds; far in the past at start.
    pub last_shot: i64,
}

impl Default for ShootSystem {
    /// A fresh shooter: the cooldown starts expired.
    fn default() -> (s: Self)
        ensures
            s.last_shot == -100_000,
    {
        ShootSystem { last_shot: -100_000 }
    }
}

impl ShootSystem {
    /// Decides whether a shot leaves this tick.  Holding the shoot button
    /// resets the cooldown even when the mouse position is unknown, as a
    /// click with no pointer aims nowhere.
    pub fn run(
        &mut self,
        now: i64,
        center: Vec2,
        radius: i64,
        mouse: Option<Vec2>,
        shoot_down: bool,
    ) -> (shot: Option<ShotRecord>)
        requires
            -TIME_LIMIT <= now <= TIME_LIMIT,
            -TIME_LIMIT <= old(self).last_shot <= TIME_LIMIT,
            center.bounded(POS_LIMIT as int),
            -GEOM_LIMIT <= radius <= GEOM_LIMIT,
            mouse matches Some(m) ==> m.bounded(GEOM_LIMIT as int),
        ensures
            -TIME_LIMIT <= final(self).last_shot <= TIME_LIMIT,
            now - old(self).last_shot < SHOT_INTERVAL ==> shot is None && *final(self) == *old(self),
            now - old(self).last_shot >= SHOT_INTERVAL && !shoot_down ==> shot is None
                && *final(self) == *old(self),
            now - old(self).last_shot >= SHOT_INTERVAL && shoot_down ==> final(self).last_shot
                == now && (match mouse {
                None => shot is None,
                Some(m) => shot == Some(shot_of(center, radius as int, m)),
            }),
    {
        if now - self.last_shot < SHOT_INTERVAL {
            return None;
        }
        if !shoot_down {
            return None;
        }
        self.last_shot = now;
        let m = match mouse {
            Some(m) => m,
            None => {
                return None;
            },
        };
        let u = unit_scaled(Vec2 { x: m.x - center.x, y: m.y - center.y });
        proof {
            assert(-(DIR_SCALE as int * (GEOM_LIMIT as int + SHOT_RADIUS)) <= u.x * (radius
                - SHOT_RADIUS) <= DIR_SCALE as int * (GEOM_LIMIT as int + SHOT_RADIUS) && -(
            DIR_SCALE as int * (GEOM_LIMIT as int + SHOT_RADIUS)) <= u.y * (radius - SHOT_RADIUS)
                <= DIR_SCALE as int * (GEOM_LIMIT as int + SHOT_RADIUS)) by (nonlinear_arith)
                requires
                    -DIR_SCALE <= u.x <= DIR_SCALE,
                    -DIR_SCALE <= u.y <= DIR_SCALE,
                    -GEOM_LIMIT <= radius <= GEOM_LIMIT,
            ;
            crate::geometry::lemma_div_trunc_abs_le(
                u.x * (radius - SHOT_RADIUS),
                DIR_SCALE as int,
                GEOM_LIMIT as int + SHOT_RADIUS,
            );
            crate::geometry::lemma_div_trunc_abs_le(
                u.y * (radius - SHOT_RADIUS),
                DIR_SCALE as int,
                GEOM_LIMIT as int + SHOT_RADIUS,
            );
            crate::geometry::lemma_div_trunc_abs_le(u.x * SHOT_SPEED, DIR_SCALE as int, SHOT_SPEED as int);
            crate::geometry::lemma_div_trunc_abs_le(u.y * SHOT_SPEED, DIR_SCALE as int, SHOT_SPEED as int);
        }
        let sx = center.x + div_trunc_i64(u.x * (radius - SHOT_RADIUS), DIR_SCALE);
        let sy = center.y + div_trunc_i64(u.y * (radius - SHOT_RADIUS), DIR_SCALE);
        Some(
            ShotRecord {
                transform: Transform(Vec2 { x: sx, y: sy }),
                circle: Circle::with_radius(SHOT_RADIUS),
                color: Color::rgb(100, 100, 900),
                moving: Moving(
                    Vec2 {
                        x: div_trunc_i64(u.x * SHOT_SPEED, DIR_SCALE),
                        y: div_trunc_i64(u.y * SHOT_SPEED, DIR_SCALE),
                    },
                ),
            },
        )
    }
}

} // verus!
