//! A mouse capture and playback engine.
//!
//! The engine records a sequence of mouse button actions at captured cursor
//! coordinates and replays it on demand, once or in a loop, as synthetic
//! input events. This crate holds the engine's logic: the shared state and
//! its transitions, the capture worker's debounce rules, the playback plan
//! with interpolated cursor motion, and the command surface a UI layer
//! drives it with. Installing the OS hook, injecting events, and running
//! threads and timers are left to the embedding binary.

pub mod capture;
pub mod commands;
pub mod events;
pub mod playback;
pub mod state;

use vstd::prelude::*;

verus! {

/// Coordinates are fixed-point screen positions. This bound keeps every
/// interpolation computation inside `i64` arithmetic.
pub const COORD_LIMIT: i64 = 1_000_000_000_000;

} // verus!
