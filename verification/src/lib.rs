//! History-tracked storage for a tabular data workbench.
//!
//! A session has one current table. Every import and every transformation
//! produces a new table, which becomes the newest entry of a linear
//! history; undo, redo and jumps move a cursor through that history, and
//! a bound keeps it from growing without end. The store in [`data::store`]
//! holds the history, [`data::model`] says what each operation makes of
//! it, and [`data::laws`] proves what follows. [`state`] wraps the one
//! store of a session in a lock, and [`commands`] holds what the request
//! handlers of an application do with it.

pub mod commands;
pub mod data;
pub mod error;
pub mod models;
pub mod snapshot;
pub mod state;
pub mod text;

pub use state::AppState;
