//! Run long work off a frame-driven thread and observe its outcome with one
//! non-blocking poll per frame.

pub mod state;
pub mod debounce;
pub mod task;
pub mod laws;
pub mod courses;
pub mod videos;
