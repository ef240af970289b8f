use super::common::UpdateOneDelta;
use super::utils::{find_system, first_named, update_hashmap_count, update_refused, updated_ledger};
use super::{Apply, OperationError};
use crate::public::board::{system_views, GameBoardView, Starship};
use crate::public::common::{Player, Pyramid};
use crate::public::current_turn::{CurrentTurnState, CurrentTurnStateView};
use vstd::prelude::*;

verus! {

broadcast use vstd::std_specs::hash::group_hash_axioms;

/// Adds one starship to a player's fleet in a discovered star system, or
/// takes one from it.
#[derive(Debug)]
pub struct UpdateFleet {
    pub star_system_name: String,
    pub player: Player,
    pub starship: Starship,
    pub delta: UpdateOneDelta,
}

/// Why the fleet was not updated.
#[derive(Clone, Copy, Debug, PartialEq, Eq, Structural)]
pub enum UpdateFleetError {
    /// The fleet holds no such starship to take.
    NoSuchStarships,
    /// The fleet holds 255 such starships already.
    FleetCountOverflow,
}

/// The error with which a fleet refuses an update in the direction `delta`.
pub open spec fn fleet_refusal(delta: UpdateOneDelta) -> UpdateFleetError {
    match delta {
        UpdateOneDelta::AddOne => UpdateFleetError::FleetCountOverflow,
        UpdateOneDelta::RemoveOne => UpdateFleetError::NoSuchStarships,
    }
}

impl Apply for UpdateFleet {
    open spec fn outcome(&self, pre: CurrentTurnStateView) -> Result<
        CurrentTurnStateView,
        OperationError,
    > {
        let systems = pre.game_board.discovered_systems;
        match first_named(systems, self.star_system_name@) {
            None => Err(OperationError::UnknownStarSystem),
            Some(index) => {
                let fleet = systems[index].fleet(self.player);
                if update_refused(fleet.get(self.starship), self.delta) {
                    Err(OperationError::UpdateFleetError(fleet_refusal(self.delta)))
                } else {
                    Ok(
                        CurrentTurnStateView {
                            game_board: GameBoardView {
                                discovered_systems: systems.update(
                                    index,
                                    systems[index].with_fleet(
                                        self.player,
                                        updated_ledger(fleet, self.starship, self.delta),
                                    ),
                                ),
                                ..pre.game_board
                            },
                            ..pre
                        },
                    )
                }
            },
        }
    }

    fn apply(self, state: &mut CurrentTurnState) -> (result: Result<(), OperationError>) {
        let index = match find_system(&state.game_board.discovered_systems, &self.star_system_name) {
            Some(index) => index,
            None => {
                return Err(OperationError::UnknownStarSystem);
            },
        };
        let star_system = &mut state.game_board.discovered_systems[index];
        let fleet = star_system.fleet_mut(self.player);
        let entry = fleet.starships.entry(self.starship.code());
        let updated = update_hashmap_count(
            entry,
            self.delta,
            UpdateFleetError::FleetCountOverflow,
            UpdateFleetError::NoSuchStarships,
        );
        proof {
            let before = old(state).game_board.discovered_systems@[index as int];
            let after = state.game_board.discovered_systems@[index as int];
            assert forall|ship: Starship| #[trigger]
                ship.spec_code() == self.starship.spec_code() implies ship == self.starship by {
                Pyramid::lemma_code_injective(ship.0, self.starship.0);
            }
            if update_refused(before@.fleet(self.player).get(self.starship), self.delta) {
                assert(after.spec_fleet(self.player).starships@ =~= before.spec_fleet(
                    self.player,
                ).starships@);
                assert(after@ == before@);
                assert(system_views(state.game_board.discovered_systems@) =~= system_views(
                    old(state).game_board.discovered_systems@,
                ));
            } else {
                assert(after.spec_fleet(self.player)@ =~= updated_ledger(
                    before@.fleet(self.player),
                    self.starship,
                    self.delta,
                ));
                assert(after@ == before@.with_fleet(
                    self.player,
                    updated_ledger(before@.fleet(self.player), self.starship, self.delta),
                ));
                assert(system_views(state.game_board.discovered_systems@) =~= system_views(
                    old(state).game_board.discovered_systems@,
                ).update(index as int, after@));
            }
        }
        match updated {
            Ok(()) => Ok(()),
            Err(error) => Err(error.into()),
        }
    }
}

} // verus!
