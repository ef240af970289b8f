//! The data model: pieces, board entities and the state of the current turn.

pub mod actions;
pub mod board;
pub mod common;
pub mod current_turn;
