//! A gravitational n-body kernel: an entity store, the two force passes, the
//! integrator, and the generators that seed galaxies and asteroid belts.
//!
//! The kernel is generic over the types of its quantities and does no
//! arithmetic itself: every formula is a callback of the caller. What the
//! kernel fixes, and what its contracts state, is the order of the work, the
//! arguments that each callback is given, and the fields of the store that a
//! result may change.

pub mod camera;
pub mod components;
pub mod creation;
pub mod generation;
pub mod gravity;
pub mod pairs;
pub mod simulation;

pub use generation::Prefab;
pub use simulation::{Settings, Simulation};
