//! A verified model of a mechanical-typewriter text editor: an append-only
//! buffer whose characters are crossed out rather than deleted, a time-gated
//! reveal predicate, and the timing logic of a sound-cue scheduler.

pub mod buffer;
pub mod input;
pub mod laws;
pub mod persist;
pub mod render;
pub mod reveal_gate;
pub mod session;
pub mod sound;
pub mod types;
