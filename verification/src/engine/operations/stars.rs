use super::utils::{find_system, first_named};
use super::{Apply, OperationError};
use crate::public::board::{
    system_views, BinaryStarId, GameBoardView, Star, StarSystemCenter, StarSystemView,
};
use crate::public::current_turn::{CurrentTurnState, CurrentTurnStateView};
use vstd::prelude::*;

verus! {

/// Which star of a system to destroy.
#[derive(Clone, Copy, Debug, PartialEq, Eq, Structural)]
pub enum DestroyStarSelector {
    /// One star of a binary system.
    Binary(BinaryStarId),
    /// The only star of a system.
    Single,
}

/// Destroys one star of a discovered star system.
#[derive(Debug)]
pub struct DestroyStar {
    pub star_system_name: String,
    pub star: DestroyStarSelector,
}

/// Why a star was not destroyed.
#[derive(Clone, Copy, Debug, PartialEq, Eq, Structural)]
pub enum DestroyStarError {
    /// The centre of the star system holds no star.
    CenterAlreadyEmpty,
    /// A star of a pair was named, and the system has a single star.
    NotABinarySystem,
    /// The single star was named, and the system has a pair.
    NotASingleStarSystem,
}

/// The centre that is left when the star that `star` names is destroyed in
/// `center`, or why it cannot be: of a pair the other star stays, a single
/// star leaves the centre empty.
pub open spec fn center_without(center: StarSystemCenter, star: DestroyStarSelector) -> Result<
    StarSystemCenter,
    DestroyStarError,
> {
    match (star, center) {
        (_, StarSystemCenter::Empty) => Err(DestroyStarError::CenterAlreadyEmpty),
        (DestroyStarSelector::Single, StarSystemCenter::SingleStar(_)) => Ok(
            StarSystemCenter::Empty,
        ),
        (DestroyStarSelector::Single, StarSystemCenter::BinaryStar { .. }) => Err(
            DestroyStarError::NotASingleStarSystem,
        ),
        (DestroyStarSelector::Binary(_), StarSystemCenter::SingleStar(_)) => Err(
            DestroyStarError::NotABinarySystem,
        ),
        (
            DestroyStarSelector::Binary(BinaryStarId::Alpha),
            StarSystemCenter::BinaryStar { alpha, beta },
        ) => Ok(StarSystemCenter::SingleStar(beta)),
        (
            DestroyStarSelector::Binary(BinaryStarId::Beta),
            StarSystemCenter::BinaryStar { alpha, beta },
        ) => Ok(StarSystemCenter::SingleStar(alpha)),
    }
}

/// The number of stars at a centre.
pub open spec fn star_count(center: StarSystemCenter) -> nat {
    match center {
        StarSystemCenter::Empty => 0,
        StarSystemCenter::SingleStar(_) => 1,
        StarSystemCenter::BinaryStar { .. } => 2,
    }
}

/// The turn state `pre` with `center` as the centre of the discovered system
/// at `index`.
pub open spec fn with_center(
    pre: CurrentTurnStateView,
    index: int,
    center: StarSystemCenter,
) -> CurrentTurnStateView {
    let systems = pre.game_board.discovered_systems;
    CurrentTurnStateView {
        game_board: GameBoardView {
            discovered_systems: systems.update(index, StarSystemView { center, ..systems[index] }),
            ..pre.game_board
        },
        ..pre
    }
}

impl Apply for DestroyStar {
    open spec fn outcome(&self, pre: CurrentTurnStateView) -> Result<
        CurrentTurnStateView,
        OperationError,
    > {
        let systems = pre.game_board.discovered_systems;
        match first_named(systems, self.star_system_name@) {
            None => Err(OperationError::UnknownStarSystem),
            Some(index) => match center_without(systems[index].center, self.star) {
                Err(error) => Err(OperationError::DestroyStarError(error)),
                Ok(center) => Ok(with_center(pre, index, center)),
            },
        }
    }

    fn apply(self, state: &mut CurrentTurnState) -> (result: Result<(), OperationError>) {
        let index = match find_system(&state.game_board.discovered_systems, &self.star_system_name) {
            Some(index) => index,
            None => {
                return Err(OperationError::UnknownStarSystem);
            },
        };
        let old_center = state.game_board.discovered_systems[index].center;
        let new_center = match self.star {
            DestroyStarSelector::Binary(star_id) => match old_center {
                StarSystemCenter::BinaryStar { alpha, beta } => {
                    let remaining_star = match star_id {
                        BinaryStarId::Alpha => beta,
                        BinaryStarId::Beta => alpha,
                    };
                    StarSystemCenter::SingleStar(remaining_star)
                },
                StarSystemCenter::SingleStar(_) => {
                    return Err(DestroyStarError::NotABinarySystem.into());
                },
                StarSystemCenter::Empty => {
                    return Err(DestroyStarError::CenterAlreadyEmpty.into());
                },
            },
            DestroyStarSelector::Single => match old_center {
                StarSystemCenter::SingleStar(_) => StarSystemCenter::Empty,
                StarSystemCenter::BinaryStar { .. } => {
                    return Err(DestroyStarError::NotASingleStarSystem.into());
                },
                StarSystemCenter::Empty => {
                    return Err(DestroyStarError::CenterAlreadyEmpty.into());
                },
            },
        };
        state.game_board.discovered_systems[index].center = new_center;
        proof {
            assert(system_views(state.game_board.discovered_systems@) =~= old(
                state,
            )@.game_board.discovered_systems.update(
                index as int,
                StarSystemView {
                    center: new_center,
                    ..old(state)@.game_board.discovered_systems[index as int]
                },
            ));
        }
        Ok(())
    }
}

/// Of a pair of stars the one that is not destroyed stays, alone; the pair
/// has no single star to destroy; and an empty centre has no star at all.
pub proof fn lemma_center_without(alpha: Star, beta: Star, star: DestroyStarSelector)
    ensures
        center_without(
            StarSystemCenter::BinaryStar { alpha, beta },
            DestroyStarSelector::Binary(BinaryStarId::Alpha),
        ) == Ok::<StarSystemCenter, DestroyStarError>(StarSystemCenter::SingleStar(beta)),
        center_without(
            StarSystemCenter::BinaryStar { alpha, beta },
            DestroyStarSelector::Binary(BinaryStarId::Beta),
        ) == Ok::<StarSystemCenter, DestroyStarError>(StarSystemCenter::SingleStar(alpha)),
        center_without(StarSystemCenter::BinaryStar { alpha, beta }, DestroyStarSelector::Single)
            == Err::<StarSystemCenter, DestroyStarError>(DestroyStarError::NotASingleStarSystem),
        center_without(StarSystemCenter::Empty, star) == Err::<StarSystemCenter, DestroyStarError>(
            DestroyStarError::CenterAlreadyEmpty,
        ),
{
}

/// Destroying a star takes exactly one star from the centre.
pub proof fn lemma_one_star_less(center: StarSystemCenter, star: DestroyStarSelector)
    requires
        center_without(center, star) is Ok,
    ensures
        star_count(center_without(center, star)->Ok_0) + 1 == star_count(center),
{
}

} // verus!
