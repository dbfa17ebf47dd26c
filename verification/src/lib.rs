//! A retained-mode gallery engine: a scene graph with gesture-driven
//! interaction and time-based transitions.
//!
//! The library is pure logic over plain integer values.  Touch coordinates
//! are fixed-point fractions of the viewport, view offsets are kept in
//! milli-pixels, and the monotonic clock is passed in as a millisecond
//! timestamp, so every component is a deterministic, fully verified state
//! machine.  The host supplies input events, the clock, and the actual
//! rendering and image fetching around the draw commands and load requests
//! this crate produces.

pub mod cache;
pub mod config;
pub mod display;
pub mod frame_rate;
pub mod geom;
pub mod gesture;
pub mod mean;
pub mod stage;
pub mod transition;
pub mod util;
pub mod view;
