//! Tactical analysis for a half-field, grid-based team-sport simulation.
//!
//! The library models a bounded playing surface (`model`) and computes
//! tactical outcomes over it (`solver`): which players are tackled, how much
//! support each side has in a contest, which dice category a block falls
//! into, and where a named play pattern fits along the line of scrimmage.

pub mod model;
pub mod solver;
