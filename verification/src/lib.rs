//! A small animation core: one filled circle that drifts to the right, driven
//! frame by frame by a host that owns the window, the clock and the renderer.
//!
//! The crate holds no rendering code. A host reports elapsed time and the
//! outcome of each drawing operation; the handler answers with the next
//! operation to perform. Lengths are integers in ticks, ten million to a
//! pixel, so that one nanosecond of frame time moves the circle by one tick.

pub mod config;
pub mod handler;
pub mod headless;
pub mod scene;
pub mod time;
