//! The shot-versus-enemy collision pass.

use vstd::prelude::*;

use crate::components::{collides, collides_spec, Circle, Transform};
use crate::geometry::{GEOM_LIMIT, POS_LIMIT};

verus! {

/// One circle of the collision pass: where it is and how big it is.
#[derive(Clone, Copy, Debug, PartialEq, Eq, Structural)]
pub struct Collider {
    pub transform: Transform,
    pub circle: Circle,
}

/// A collider the collision pass accepts: on-screen-scale position and a
/// geometry-sized radius.
pub open spec fn collider_ok(c: Collider) -> bool {
    c.transform.0.bounded(POS_LIMIT as int / 2) && 0 <= c.circle.radius <= GEOM_LIMIT
}

/// The two circles touch, with no grace gap.
pub open spec fn hits(a: Collider, b: Collider) -> bool {
    collides_spec(a.transform, a.circle, b.transform, b.circle, 0)
}

/// Enemy `j` is the first enemy (in store order) that shot `s` touches;
/// a shot stops at its first hit and spares the enemies behind it.
pub open spec fn first_hit(s: Collider, enemies: Seq<Collider>, j: int) -> bool {
    0 <= j < enemies.len() && hits(s, enemies[j]) && forall|k: int|
        0 <= k < j ==> !hits(s, #[trigger] enemies[k])
}

/// The pass that collides every live shot against every live enemy.  Each
/// shot dies on its first hit; each enemy dies once some shot hits it
/// first.  The cosmetic explosion each death leaves behind belongs to the
/// excluded particle system.
pub struct CollisionSystem;

impl CollisionSystem {
    /// Decides which shots and which enemies die this tick.
    pub fn run(shots: &Vec<Collider>, enemies: &Vec<Collider>) -> (r: (Vec<bool>, Vec<bool>))
        requires
            forall|i: int| 0 <= i < shots@.len() ==> collider_ok(#[trigger] shots@[i]),
            forall|j: int| 0 <= j < enemies@.len() ==> collider_ok(#[trigger] enemies@[j]),
        ensures
            r.0@.len() == shots@.len(),
            r.1@.len() == enemies@.len(),
            forall|i: int|
                0 <= i < shots@.len() ==> #[trigger] r.0@[i] == exists|j: int|
                    0 <= j < enemies@.len() && hits(shots@[i], #[trigger] enemies@[j]),
            forall|j: int|
                0 <= j < enemies@.len() ==> #[trigger] r.1@[j] == exists|i: int|
                    0 <= i < shots@.len() && first_hit(#[trigger] shots@[i], enemies@, j),
    {
        let mut dead_shots: Vec<bool> = Vec::new();
        let mut dead_enemies: Vec<bool> = Vec::new();
        let mut j: usize = 0;
        while j < enemies.len()
            invariant
                dead_enemies@.len() == j <= enemies@.len(),
                forall|k: int| 0 <= k < j ==> !(#[trigger] dead_enemies@[k]),
            decreases enemies@.len() - j,
        {
            dead_enemies.push(false);
            j = j + 1;
        }
        let mut i: usize = 0;
        while i < shots.len()
            invariant
                forall|k: int| 0 <= k < shots@.len() ==> collider_ok(#[trigger] shots@[k]),
                forall|k: int| 0 <= k < enemies@.len() ==> collider_ok(#[trigger] enemies@[k]),
                dead_shots@.len() == i <= shots@.len(),
                dead_enemies@.len() == enemies@.len(),
                forall|k: int|
                    0 <= k < i ==> #[trigger] dead_shots@[k] == exists|j2: int|
                        0 <= j2 < enemies@.len() && hits(shots@[k], #[trigger] enemies@[j2]),
                forall|j2: int|
                    0 <= j2 < enemies@.len() ==> #[trigger] dead_enemies@[j2] == exists|k: int|
                        0 <= k < i && first_hit(#[trigger] shots@[k], enemies@, j2),
            decreases shots@.len() - i,
        {
            let shot = &shots[i];
            let mut hit: Option<usize> = None;
            let mut k: usize = 0;
            while k < enemies.len() && hit.is_none()
                invariant
                    forall|m: int| 0 <= m < shots@.len() ==> collider_ok(#[trigger] shots@[m]),
                    forall|m: int| 0 <= m < enemies@.len() ==> collider_ok(#[trigger] enemies@[m]),
                    0 <= i < shots@.len(),
                    shot == &shots@[i as int],
                    k <= enemies@.len(),
                    hit is None ==> forall|m: int|
                        0 <= m < k ==> !hits(shots@[i as int], #[trigger] enemies@[m]),
                    hit matches Some(h) ==> first_hit(shots@[i as int], enemies@, h as int),
                decreases enemies@.len() - k,
            {
                let enemy = &enemies[k];
                if collides(
                    &shot.transform,
                    &shot.circle,
                    &enemy.transform,
                    &enemy.circle,
                    0,
                ) {
                    hit = Some(k);
                }
                k = k + 1;
            }
            match hit {
                Some(h) => {
                    dead_shots.push(true);
                    dead_enemies.set(h, true);
                },
                None => {
                    dead_shots.push(false);
                },
            }
            i = i + 1;
        }
        (dead_shots, dead_enemies)
    }
}

} // verus!
