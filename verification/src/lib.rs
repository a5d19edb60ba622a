//! Core of a rigid-body benchmarking harness: the engine selector and its
//! cycle, the engine-neutral description of walls and balls, the arena that
//! scopes every entity to the engine that created it, the spawn throttle,
//! the frame-rate milestones, and the window-fitting camera geometry.
//!
//! Lengths are integers in thousandths of a world unit, durations are
//! integers in nanoseconds, and frame rates are integers in thousandths of a
//! frame per second, so that every rule of the harness is stated and proved
//! over exact arithmetic.

pub mod mode;
pub mod geometry;
pub mod backend;
pub mod scope;
pub mod walls;
pub mod spawner;
pub mod camera;
pub mod telemetry;
pub mod simulation;
