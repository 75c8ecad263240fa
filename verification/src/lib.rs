//! Directional platform-collision and motion-resolution core of a 2D
//! tile-based action game: a spatial index over platform colliders, probe
//! based narrow-phase collision detection that works for any of the four
//! cardinal gravity directions, and the ordered resolution passes that
//! correct positions and velocities each simulation step.

pub mod collision;
pub mod game;
pub mod graphics;
pub mod level;
pub mod passes;
pub mod physics;
pub mod spatial;
pub mod vec2;
