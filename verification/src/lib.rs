//! Core of a tick-driven grid game: a single player moves, digs and builds on
//! a bounded arena of tiles populated with destructible walls.
//!
//! The crate holds the action-resolution pipeline (input capture, validation,
//! and the move / dig / build executors), the one-shot boundary generator and
//! the rejection-sampling wall spawner, all verified against a mathematical
//! view of the game state.

pub mod grid;
pub mod pipeline;
pub mod spawn;
pub mod world;
