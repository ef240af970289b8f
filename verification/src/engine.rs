//! The engine that applies operations to the state of the current turn.

pub mod operations;
