use super::board::{StarSystem, Starship};
use super::common::Color;
use vstd::prelude::*;

verus! {

/// Where a starship moves to: a system that is on the board, or one that the
/// move discovers.
pub enum MoveTargetStarSystem {
    Known { star_system: StarSystem },
    Discovered,
}

/// What a player does in one star system.
pub enum ActionInStarSystem {
    Build { color: Color },
    Move { starship: Starship, target: MoveTargetStarSystem },
    Capture { starship: Starship },
    Trade { starship: Starship, new_color: Color },
    DeclareCatastrophe { color: Color },
    Sacrifice { starship: Starship },
}

/// What a player does with a turn.
pub enum Action {
    Play { star_system: StarSystem, action: Box<ActionInStarSystem> },
    Pass,
    Resign,
}

} // verus!
