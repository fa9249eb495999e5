//! Core of a frame-stepped 3D combat simulation: towers that periodically
//! fire projectiles, projectiles with finite lifetimes, and axis-aligned
//! bounding-box collision detection over all tracked entities.
//!
//! All quantities are fixed-point integers: lengths and positions in
//! thousandths of a world unit, times in milliseconds, speeds in thousandths
//! of a unit per second. Rendering, input and windowing are external
//! collaborators; the library only consumes a per-frame elapsed-time value
//! and produces entity mutations and events.

pub mod collision;
pub mod components;
pub mod lifetime;
pub mod motion;
pub mod shooting;
pub mod fixed;
pub mod frame;
pub mod store;
pub mod timer;
