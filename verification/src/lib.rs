//! Story progression engine for a visual-novel style game.
//!
//! The library holds the logic that drives a branching narrative: a line
//! parser that extracts speaker attribution and stage directions from raw
//! script lines, a story sequencer that pulls lines and choices from the
//! narrative interpreter and tracks whether the player may continue, must
//! pick an option, or has reached the end, a character registry that keeps
//! per-speaker animation bookkeeping, and a texture manager that records
//! which image assets were registered under which key.
//!
//! Rendering, input polling and asset loading live outside the library; they
//! hand plain values in and read plain values back.

pub mod errors;
pub mod game;
pub mod input;
pub mod interp;
pub mod names;
pub mod registry;
pub mod sequencer;
pub mod speaker;
pub mod texture;
