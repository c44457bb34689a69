//! Simulation core of a small tile-based game built around components,
//! resources and systems.
//!
//! World coordinates are fixed point: one world unit is `UNIT` sub-units,
//! and time is counted in nanoseconds, so a velocity of one world unit per
//! second moves a position by exactly one sub-unit per nanosecond.
pub mod components;
pub mod laws;
pub mod map;
pub mod resources;
pub mod systems;
