//! A deterministic 2D platformer core: a single controllable body moving
//! against static axis-aligned obstacles, advanced by a fixed-order per-tick
//! pipeline of input edge detection, AABB collision detection, gravity
//! integration, velocity integration with a vertical-speed clamp, and a
//! collision-gated jump.
//!
//! All quantities are fixed-point integers so that every update is exact:
//! positions and half-extents are in micro-units, velocities in milli-units
//! per second, and elapsed time in milliseconds. A velocity multiplied by an
//! elapsed time then yields a displacement in micro-units with no rounding.

pub mod body;
pub mod collision;
pub mod geom;
pub mod input;
pub mod jump;
pub mod physics;
pub mod units;
pub mod world;
