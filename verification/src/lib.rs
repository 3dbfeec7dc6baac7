//! Change tracking for a bank of digital input lines shown on a terminal grid.
//!
//! A poll samples every line of the bank and raises a sticky flag on each line
//! whose level changed; the operator acknowledges the flags or blocks the
//! flagged lines for good. The bank, the key handling and the grid that is
//! drawn are plain values here: reading the lines, the timers and the terminal
//! are the caller's.
//!
//! - [`level`], [`latch`]: the three-valued level and the change latch.
//! - [`bank`]: the lines and the operations on them; [`laws`]: what holds of
//!   those operations in any order.
//! - [`args`]: the line count and its rounding to whole rows.
//! - [`viewport`], [`input`], [`terminal`], [`app`]: scrolling, keys, and the
//!   main loop's step from an event to an action.
//! - [`text`], [`render`]: labels, header and the grid of styled cells.

pub mod level;
pub mod latch;
pub mod bank;
pub mod laws;
pub mod args;
pub mod viewport;
pub mod input;
pub mod terminal;
pub mod app;
pub mod text;
pub mod render;
