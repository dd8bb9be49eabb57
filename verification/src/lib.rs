//! Core of a minimal real-time, grid-based game: a fixed-size occupancy
//! grid, a tick timer with carry-over accumulation, per-frame statistics,
//! and a frame driver that turns window events into state changes and
//! drawing decisions. Rendering and windowing are left to an outside
//! collaborator that feeds events in and issues the computed primitives.

use vstd::prelude::*;

pub mod driver;
pub mod field;
pub mod fps;
pub mod geom;
pub mod grid;
pub mod timer;

verus! {

/// Window width in pixels.
pub const WINDOW_WIDTH: u32 = 400;

/// Window height in pixels.
pub const WINDOW_HEIGHT: u32 = 400;

/// Playfield width in pixels.
pub const FIELD_WIDTH: u32 = 200;

/// Playfield height in pixels.
pub const FIELD_HEIGHT: u32 = 400;

/// Playfield width in cells.
pub const GRID_WIDTH: usize = 10;

/// Playfield height in cells.
pub const GRID_HEIGHT: usize = 20;

/// Time between two logic ticks, in microseconds.
pub const MOVE_INTERVAL_MICROS: u64 = 1_000_000;

/// One second, in microseconds.
pub const MICROS_PER_SECOND: u64 = 1_000_000;

} // verus!
