//! Turn operation engine of a two-player board game played with coloured,
//! sized pieces: every operation either commits one valid change to the
//! turn state or is rejected and leaves the state as it was.

pub mod engine;
pub mod public;
