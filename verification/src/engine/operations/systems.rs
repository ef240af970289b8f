use super::utils::{find_system, first_named, has_name, lemma_first_named_some, names_distinct};
use super::{Apply, OperationError};
use crate::public::board::{
    system_views, Fleet, GameBoardView, Star, StarSystem, StarSystemCenter, StarSystemView,
};
use crate::public::current_turn::{CurrentTurnState, CurrentTurnStateView};
use vstd::prelude::*;

verus! {

/// Discovers a star system: a new system with one star and no starships. Its
/// name must be new among the discovered systems; the names of the two
/// homeworlds are not looked at.
#[derive(Debug)]
pub struct DiscoverSystem {
    pub name: String,
    pub center_star: Star,
}

/// The system that a discovery adds to the board: `center_star` alone at its
/// centre, two fleets without starships, and nobody's homeworld.
pub open spec fn discovered_system(name: Seq<char>, center_star: Star) -> StarSystemView {
    StarSystemView {
        name,
        center: StarSystemCenter::SingleStar(center_star),
        fleet_first: Map::empty(),
        fleet_second: Map::empty(),
        is_homeworld_for: None,
    }
}

impl Apply for DiscoverSystem {
    open spec fn outcome(&self, pre: CurrentTurnStateView) -> Result<
        CurrentTurnStateView,
        OperationError,
    > {
        let systems = pre.game_board.discovered_systems;
        if has_name(systems, self.name@) {
            Err(OperationError::DuplicatedStarSystemName { name: self.name })
        } else {
            Ok(
                CurrentTurnStateView {
                    game_board: GameBoardView {
                        discovered_systems: systems.push(
                            discovered_system(self.name@, self.center_star),
                        ),
                        ..pre.game_board
                    },
                    ..pre
                },
            )
        }
    }

    fn apply(self, state: &mut CurrentTurnState) -> (result: Result<(), OperationError>) {
        if find_system(&state.game_board.discovered_systems, &self.name).is_some() {
            return Err(OperationError::DuplicatedStarSystemName { name: self.name });
        }
        let system = StarSystem {
            name: self.name,
            center: StarSystemCenter::SingleStar(self.center_star),
            fleet_first: Fleet::default(),
            fleet_second: Fleet::default(),
            is_homeworld_for: None,
        };
        state.game_board.discovered_systems.push(system);
        proof {
            assert(system_views(state.game_board.discovered_systems@) =~= system_views(
                old(state).game_board.discovered_systems@,
            ).push(discovered_system(self.name@, self.center_star)));
        }
        Ok(())
    }
}

/// Forgets a discovered star system that nobody needs any more.
#[derive(Debug)]
pub struct ForgetSystem {
    pub star_system_name: String,
}

/// Why a star system was not forgotten.
#[derive(Clone, Copy, Debug, PartialEq, Eq, Structural)]
pub enum ForgetSystemError {
    /// The system is a player's homeworld.
    CannotForgetHomeworld,
    /// A fleet of the system still holds a starship.
    FleetsNotEmpty,
}

/// Whether a system may be forgotten: it is nobody's homeworld, and neither
/// fleet holds a starship.
pub open spec fn forgettable(system: StarSystemView) -> Result<(), ForgetSystemError> {
    if system.is_homeworld_for is Some {
        Err(ForgetSystemError::CannotForgetHomeworld)
    } else if !system.fleet_first.is_empty() || !system.fleet_second.is_empty() {
        Err(ForgetSystemError::FleetsNotEmpty)
    } else {
        Ok(())
    }
}

impl Apply for ForgetSystem {
    open spec fn outcome(&self, pre: CurrentTurnStateView) -> Result<
        CurrentTurnStateView,
        OperationError,
    > {
        let systems = pre.game_board.discovered_systems;
        match first_named(systems, self.star_system_name@) {
            None => Err(OperationError::UnknownStarSystem),
            Some(index) => match forgettable(systems[index]) {
                Err(error) => Err(OperationError::ForgetSystemError(error)),
                Ok(_) => Ok(
                    CurrentTurnStateView {
                        game_board: GameBoardView {
                            discovered_systems: systems.remove(index),
                            ..pre.game_board
                        },
                        ..pre
                    },
                ),
            },
        }
    }

    fn apply(self, state: &mut CurrentTurnState) -> (result: Result<(), OperationError>) {
        let system_index = match find_system(
            &state.game_board.discovered_systems,
            &self.star_system_name,
        ) {
            Some(index) => index,
            None => {
                return Err(OperationError::UnknownStarSystem);
            },
        };
        let system = &state.game_board.discovered_systems[system_index];
        if system.is_homeworld_for.is_some() {
            return Err(ForgetSystemError::CannotForgetHomeworld.into());
        }
        if !system.fleet_first.is_empty() || !system.fleet_second.is_empty() {
            return Err(ForgetSystemError::FleetsNotEmpty.into());
        }
        state.game_board.discovered_systems.remove(system_index);
        proof {
            assert(system_views(state.game_board.discovered_systems@) =~= system_views(
                old(state).game_board.discovered_systems@,
            ).remove(system_index as int));
        }
        Ok(())
    }
}

/// A name can be discovered once: after a discovery, another discovery of
/// the same name is refused as a duplicate, whatever its star.
pub proof fn lemma_discovered_once(
    first: DiscoverSystem,
    second: DiscoverSystem,
    pre: CurrentTurnStateView,
)
    requires
        first.outcome(pre) is Ok,
        second.name@ == first.name@,
    ensures
        second.outcome(first.outcome(pre)->Ok_0) == Err::<CurrentTurnStateView, OperationError>(
            OperationError::DuplicatedStarSystemName { name: second.name },
        ),
{
    let systems = first.outcome(pre)->Ok_0.game_board.discovered_systems;
    assert(systems[systems.len() - 1].name == second.name@);
}

/// A discovery adds one system, at the end of the list, and keeps the names
/// of the list distinct.
pub proof fn lemma_discovery_keeps_names_distinct(op: DiscoverSystem, pre: CurrentTurnStateView)
    requires
        op.outcome(pre) is Ok,
        names_distinct(pre.game_board.discovered_systems),
    ensures
        names_distinct(op.outcome(pre)->Ok_0.game_board.discovered_systems),
        op.outcome(pre)->Ok_0.game_board.discovered_systems.len()
            == pre.game_board.discovered_systems.len() + 1,
{
    let before = pre.game_board.discovered_systems;
    let after = op.outcome(pre)->Ok_0.game_board.discovered_systems;
    assert forall|i: int, j: int| 0 <= i < j < after.len() implies (#[trigger] after[i]).name != (
    #[trigger] after[j]).name by {
        if j < before.len() {
            assert(before[i].name != before[j].name);
        } else {
            assert(before[i].name != op.name@);
        }
    }
}

/// Forgetting a system shrinks the list of discovered systems by exactly
/// one, and where the names of the list were distinct, no system of that
/// name is left.
pub proof fn lemma_forgetting_removes_one(op: ForgetSystem, pre: CurrentTurnStateView)
    requires
        op.outcome(pre) is Ok,
    ensures
        op.outcome(pre)->Ok_0.game_board.discovered_systems.len()
            == pre.game_board.discovered_systems.len() - 1,
        names_distinct(pre.game_board.discovered_systems) ==> names_distinct(
            op.outcome(pre)->Ok_0.game_board.discovered_systems,
        ) && !has_name(op.outcome(pre)->Ok_0.game_board.discovered_systems, op.star_system_name@),
{
    let before = pre.game_board.discovered_systems;
    let after = op.outcome(pre)->Ok_0.game_board.discovered_systems;
    lemma_first_named_some(before, op.star_system_name@);
    let index = first_named(before, op.star_system_name@)->0;
    if names_distinct(before) {
        assert forall|i: int, j: int| 0 <= i < j < after.len() implies (#[trigger] after[i]).name
            != (#[trigger] after[j]).name by {
            let from_i = if i < index { i } else { i + 1 };
            let from_j = if j < index { j } else { j + 1 };
            assert(before[from_i].name != before[from_j].name);
        }
        assert forall|i: int| 0 <= i < after.len() implies (#[trigger] after[i]).name
            != op.star_system_name@ by {
            let from_i = if i < index { i } else { i + 1 };
            if from_i < index {
                assert(before[from_i].name != before[index].name);
            } else {
                assert(before[index].name != before[from_i].name);
            }
        }
    }
}

} // verus!
