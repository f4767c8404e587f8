//! Per-tick collision resolution for a 2D platformer, on fixed-point coordinates.
//!
//! Three layers, each built on the one before:
//!
//! * [`geometry`]: axis-aligned boxes and the overlap classifier, which tells on which side
//!   of a box another one overlaps it;
//! * [`platform`]: movable actors against static platforms, with snapping, velocity zeroing
//!   and the grounded flag;
//! * [`attack`]: the hitbox of a controlled actor against hostile actors and back, with
//!   removal of a hostile actor or a reset of the controlled one.
//!
//! [`platform_laws`] and [`attack_laws`] state and prove what holds of every input.
//!
//! Every length and speed is an integer count of steps, [`geometry::UNIT`] steps to one world
//! unit, so that every result is exact and the same on every machine. Nothing is kept from
//! one tick to the next: each call works on the state it is handed.
//!
//! Within a tick the platforms come first and combat second, so that combat sees every body
//! where the platforms have left it.

pub mod attack;
pub mod attack_laws;
pub mod geometry;
pub mod platform;
pub mod platform_laws;
