//! A small renderer core: a deterministic hash-based noise field seeded by a
//! fixed permutation table, per-frame uniform state derived from the window
//! size, the static full-screen quad geometry, and the event-driven frame
//! loop controller.  The windowing and graphics backend itself lives outside
//! this crate; everything here is plain data and decisions.

pub mod controller;
pub mod geometry;
pub mod noise;
pub mod uniforms;
