//! An in-memory to-do list: tasks, the store that numbers them by position,
//! and the rules of the interactive session that drives the store.

pub mod command;
pub mod error;
pub mod session;
pub mod store;
pub mod task;
pub mod text;
