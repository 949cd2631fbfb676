//! Movement and collision core for a 2D tile-based platformer.
//!
//! The crate models terrain as a grid of tiles (solid blocks, two slope
//! orientations, empty space) together with an axis-separated, pixel-stepped
//! movement resolver for a kinematic actor, and an alternate narrow-phase
//! resolver for convex polygon terrain.  All quantities are integers:
//! positions are whole pixels, velocities are thousandths of a pixel per
//! second, and time steps are milliseconds, so every rule of the simulation
//! is exact and provable.

pub mod player;
pub mod polygon;
pub mod terrain;
pub mod tilemap;
