//! The deferred-creation facade: a command buffer of pending entities.
//!
//! Systems run over a read-only view of the entity store; everything they
//! create is buffered here and applied at a synchronization point after the
//! pass, so iteration never observes a partially constructed entity.

use vstd::prelude::*;

use crate::components::{Circle, Color, Moving, Transform, Triangle};
use crate::reader::BallEnemy;
use crate::spawner::EnemySpawner;

verus! {

/// The display color each enemy kind is created with.
pub open spec fn default_color_spec(e: BallEnemy) -> Color {
    match e {
        BallEnemy::Simple => Color { r: 100, g: 100, b: 900, a: 1000 },
        BallEnemy::Double => Color { r: 950, g: 300, b: 100, a: 1000 },
    }
}

impl BallEnemy {
    /// The display color this enemy kind is created with.
    pub fn default_color(&self) -> (c: Color)
        ensures
            c == default_color_spec(*self),
    {
        match self {
            BallEnemy::Simple => Color::rgb(100, 100, 900),
            BallEnemy::Double => Color::rgb(950, 300, 100),
        }
    }
}

/// A buffered request to create one enemy entity.
#[derive(Clone, Copy, Debug, PartialEq, Eq, Structural)]
pub struct EnemyRecord {
    pub enemy: BallEnemy,
    pub color: Color,
    pub circle: Circle,
    pub transform: Transform,
    pub moving: Moving,
}

/// A buffered request to create one pending-spawner entity, with its
/// telegraph color and placeholder indicator shape.
#[derive(Clone, Debug, PartialEq, Eq)]
pub struct SpawnerRecord {
    pub spawner: EnemySpawner,
    pub color: Color,
    pub triangle: Triangle,
}

/// The placeholder indicator a spawner entity is created with; the spawner
/// update pass replaces it before it is ever drawn.
pub open spec fn placeholder_triangle() -> Triangle {
    Triangle {
        a: crate::geometry::Vec2 { x: -1i64, y: -1i64 },
        b: crate::geometry::Vec2 { x: -1i64, y: -1i64 },
        c: crate::geometry::Vec2 { x: -1i64, y: -1i64 },
    }
}

/// The command buffer of pending creations.
#[derive(Clone, Debug, PartialEq, Eq)]
pub struct LazyCreator {
    /// Enemy entities to materialize at the next synchronization point.
    pub enemies: Vec<EnemyRecord>,
    /// Spawner entities to materialize at the next synchronization point.
    pub spawners: Vec<SpawnerRecord>,
}

impl LazyCreator {
    /// An empty command buffer.
    pub fn new() -> (c: LazyCreator)
        ensures
            c.enemies@ =~= Seq::<EnemyRecord>::empty(),
            c.spawners@ =~= Seq::<SpawnerRecord>::empty(),
    {
        LazyCreator { enemies: Vec::new(), spawners: Vec::new() }
    }

    /// Buffers one enemy entity with its kind's default color; returns the
    /// handle (its rank among buffered enemies), usable only for later
    /// deferred operations.
    pub fn create_enemy(
        &mut self,
        enemy: BallEnemy,
        circle: Circle,
        transform: Transform,
        moving: Moving,
    ) -> (id: usize)
        ensures
            final(self).enemies@ == old(self).enemies@.push(
                EnemyRecord { enemy, color: default_color_spec(enemy), circle, transform, moving },
            ),
            final(self).spawners@ == old(self).spawners@,
            id == old(self).enemies@.len(),
    {
        let id = self.enemies.len();
        let color = enemy.default_color();
        self.enemies.push(EnemyRecord { enemy, color, circle, transform, moving });
        id
    }

    /// Buffers one pending-spawner entity, white and with the placeholder
    /// indicator; returns its rank among buffered spawners.
    pub fn create_spawner(&mut self, spawner: EnemySpawner) -> (id: usize)
        ensures
            final(self).spawners@ == old(self).spawners@.push(
                SpawnerRecord {
                    spawner,
                    color: Color { r: 1000, g: 1000, b: 1000, a: 1000 },
                    triangle: placeholder_triangle(),
                },
            ),
            final(self).enemies@ == old(self).enemies@,
            id == old(self).spawners@.len(),
    {
        let id = self.spawners.len();
        let color = Color::rgb(1000, 1000, 1000);
        let triangle = Triangle::new(
            crate::geometry::Vec2 { x: -1, y: -1 },
            crate::geometry::Vec2 { x: -1, y: -1 },
            crate::geometry::Vec2 { x: -1, y: -1 },
        );
        self.spawners.push(SpawnerRecord { spawner, color, triangle });
        id
    }
}

} // verus!
