//! Level-scripting and formation-spawning engine for a 2D arcade shooter.
//!
//! A scripted level produces a stream of events (wait, wait for a clear
//! screen, spawn a formation).  A cooperative executor drains those events
//! once per simulation tick, expands enemy formations into staged spawner
//! records through pure placement geometry, and defers every entity creation
//! through a command buffer so that no store is mutated mid-pass.
//!
//! All geometry is integer arithmetic: world coordinates are plain `i64`
//! units, directions are fixed-point vectors scaled by `DIR_SCALE`, and
//! angles are measured in millidegrees.

pub mod components;
pub mod creator;
pub mod executor;
pub mod formation;
pub mod geometry;
pub mod placement;
pub mod reader;
pub mod spawner;
pub mod systems;

pub use geometry::Vec2;
