//! Simulation and control core for a two-player top-down tank arena.
//!
//! The library models the arena in fixed-point integers: lengths in
//! milli-pixels ("milli"), positions in "fine" units (milli scaled by the
//! direction resolution, see [`geometry`]), angles in millidegrees, and time
//! in milliseconds. Collision and ray-cast queries are answered by an outside
//! spatial query service; every function here that consumes such an answer
//! states what holds of the new state for any answer the service may give.

pub mod arena;
pub mod bullet;
pub mod geometry;
pub mod instruction;
pub mod key_board;
pub mod map;
pub mod map_loader;
pub mod player;
pub mod server;
pub mod tank;
pub mod vision;
pub mod wire;
