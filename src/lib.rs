//! Simulation core of a side-scrolling glider game: motion of the plane,
//! scrolling and recycling of obstacles, the spawn schedule, collision
//! detection and restart, all on whole-number fixed-point values.
//!
//! Units: positions and sizes in nano-pixels, velocities in milli-pixels per
//! second, time in microseconds. With these units every update of the
//! simulation is exact integer arithmetic.

pub mod geometry;
pub mod plane;
pub mod obstacle;
pub mod spawn;
pub mod game;
pub mod laws;

