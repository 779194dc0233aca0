//! A verified engine for a two-player vertical-drop connection game on a
//! six-by-seven grid: board state with gravity-drop insertion, four-in-a-row
//! detection, terminal-state classification, and a bounded-depth negamax
//! search that recommends a column for the side to move.
//!
//! The surrounding user interface (menus, prompts, rendering) is ordinary,
//! unverified glue and lives outside this crate.

pub mod ai;
pub mod board;
pub mod client;
pub mod error;
pub mod manager;
pub mod mode;
pub mod session;
pub mod state;
pub mod view;
