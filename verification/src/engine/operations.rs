//! The operations on the state of the current turn, the errors with which
//! they are refused, and the one contract that all of them meet.

pub mod bank;
pub mod common;
pub mod fleet;
pub mod pending_powers;
pub mod stars;
pub mod systems;
pub mod turn;
pub mod utils;

use crate::public::current_turn::{CurrentTurnState, CurrentTurnStateView, CurrentTurnStatus};
use vstd::prelude::*;

use bank::{UpdateBank, UpdateBankError};
use fleet::{UpdateFleet, UpdateFleetError};
use pending_powers::{UpdatePendingPowers, UpdatePendingPowersError};
use stars::{DestroyStar, DestroyStarError};
use systems::{
    lemma_discovery_keeps_names_distinct, lemma_forgetting_removes_one, DiscoverSystem,
    ForgetSystem, ForgetSystemError,
};
use turn::{SetCurrentTurnStatus, SetCurrentTurnStatusError};
use utils::{
    first_named, lemma_first_named_some, lemma_update_keeps_counts_positive, names_distinct,
};

verus! {

/// Why an operation was refused.
#[derive(Debug, PartialEq, Eq)]
pub enum OperationError {
    /// A discovered star system has this name already.
    DuplicatedStarSystemName { name: String },
    /// The pending powers cannot be updated.
    UpdatePendingPowersError(UpdatePendingPowersError),
    /// No discovered star system has the name given.
    UnknownStarSystem,
    /// The fleet cannot be updated.
    UpdateFleetError(UpdateFleetError),
    /// The bank cannot be updated.
    UpdateBankError(UpdateBankError),
    /// The system cannot be forgotten.
    ForgetSystemError(ForgetSystemError),
    /// The star cannot be destroyed.
    DestroyStarError(DestroyStarError),
    /// The status of the current turn cannot be changed.
    SetCurrentTurnStatusError(SetCurrentTurnStatusError),
}

impl From<UpdatePendingPowersError> for OperationError {
    /// The error of an operation that failed with `error`.
    fn from(error: UpdatePendingPowersError) -> (wrapped: OperationError) {
        OperationError::UpdatePendingPowersError(error)
    }
}

impl vstd::std_specs::convert::FromSpecImpl<UpdatePendingPowersError> for OperationError {
    open spec fn obeys_from_spec() -> bool {
        true
    }

    open spec fn from_spec(error: UpdatePendingPowersError) -> OperationError {
        OperationError::UpdatePendingPowersError(error)
    }
}

impl From<UpdateFleetError> for OperationError {
    /// The error of an operation that failed with `error`.
    fn from(error: UpdateFleetError) -> (wrapped: OperationError) {
        OperationError::UpdateFleetError(error)
    }
}

impl vstd::std_specs::convert::FromSpecImpl<UpdateFleetError> for OperationError {
    open spec fn obeys_from_spec() -> bool {
        true
    }

    open spec fn from_spec(error: UpdateFleetError) -> OperationError {
        OperationError::UpdateFleetError(error)
    }
}

impl From<UpdateBankError> for OperationError {
    /// The error of an operation that failed with `error`.
    fn from(error: UpdateBankError) -> (wrapped: OperationError) {
        OperationError::UpdateBankError(error)
    }
}

impl vstd::std_specs::convert::FromSpecImpl<UpdateBankError> for OperationError {
    open spec fn obeys_from_spec() -> bool {
        true
    }

    open spec fn from_spec(error: UpdateBankError) -> OperationError {
        OperationError::UpdateBankError(error)
    }
}

impl From<ForgetSystemError> for OperationError {
    /// The error of an operation that failed with `error`.
    fn from(error: ForgetSystemError) -> (wrapped: OperationError) {
        OperationError::ForgetSystemError(error)
    }
}

impl vstd::std_specs::convert::FromSpecImpl<ForgetSystemError> for OperationError {
    open spec fn obeys_from_spec() -> bool {
        true
    }

    open spec fn from_spec(error: ForgetSystemError) -> OperationError {
        OperationError::ForgetSystemError(error)
    }
}

impl From<DestroyStarError> for OperationError {
    /// The error of an operation that failed with `error`.
    fn from(error: DestroyStarError) -> (wrapped: OperationError) {
        OperationError::DestroyStarError(error)
    }
}

impl vstd::std_specs::convert::FromSpecImpl<DestroyStarError> for OperationError {
    open spec fn obeys_from_spec() -> bool {
        true
    }

    open spec fn from_spec(error: DestroyStarError) -> OperationError {
        OperationError::DestroyStarError(error)
    }
}

impl From<SetCurrentTurnStatusError> for OperationError {
    /// The error of an operation that failed with `error`.
    fn from(error: SetCurrentTurnStatusError) -> (wrapped: OperationError) {
        OperationError::SetCurrentTurnStatusError(error)
    }
}

impl vstd::std_specs::convert::FromSpecImpl<SetCurrentTurnStatusError> for OperationError {
    open spec fn obeys_from_spec() -> bool {
        true
    }

    open spec fn from_spec(error: SetCurrentTurnStatusError) -> OperationError {
        OperationError::SetCurrentTurnStatusError(error)
    }
}

/// An operation on the state of the current turn.
pub trait Apply: Sized {
    /// What the operation makes of a turn state: the state after it, or the
    /// error with which it is refused.
    spec fn outcome(&self, pre: CurrentTurnStateView) -> Result<
        CurrentTurnStateView,
        OperationError,
    >;

    /// Applies the operation to `state`: either commits the whole change or
    /// returns the error and leaves `state` as it was.
    fn apply(self, state: &mut CurrentTurnState) -> (result: Result<(), OperationError>)
        requires
            old(state).wf(),
        ensures
            final(state).wf(),
            match self.outcome(old(state)@) {
                Ok(post) => result is Ok && final(state)@ == post,
                Err(error) => result == Err::<(), OperationError>(error) && final(state)@ == old(
                    state,
                )@,
            },
    ;
}

/// Any one of the operations.
pub enum BasicOperation {
    DiscoverSystem(DiscoverSystem),
    ForgetSystem(ForgetSystem),
    UpdatePendingPowers(UpdatePendingPowers),
    UpdateFleet(UpdateFleet),
    UpdateBank(UpdateBank),
    DestroyStar(DestroyStar),
    SetCurrentTurnStatus(SetCurrentTurnStatus),
}

impl Apply for BasicOperation {
    open spec fn outcome(&self, pre: CurrentTurnStateView) -> Result<
        CurrentTurnStateView,
        OperationError,
    > {
        match self {
            BasicOperation::DiscoverSystem(op) => op.outcome(pre),
            BasicOperation::ForgetSystem(op) => op.outcome(pre),
            BasicOperation::UpdatePendingPowers(op) => op.outcome(pre),
            BasicOperation::UpdateFleet(op) => op.outcome(pre),
            BasicOperation::UpdateBank(op) => op.outcome(pre),
            BasicOperation::DestroyStar(op) => op.outcome(pre),
            BasicOperation::SetCurrentTurnStatus(op) => op.outcome(pre),
        }
    }

    fn apply(self, state: &mut CurrentTurnState) -> (result: Result<(), OperationError>) {
        match self {
            BasicOperation::DiscoverSystem(op) => op.apply(state),
            BasicOperation::ForgetSystem(op) => op.apply(state),
            BasicOperation::UpdatePendingPowers(op) => op.apply(state),
            BasicOperation::UpdateFleet(op) => op.apply(state),
            BasicOperation::UpdateBank(op) => op.apply(state),
            BasicOperation::DestroyStar(op) => op.apply(state),
            BasicOperation::SetCurrentTurnStatus(op) => op.apply(state),
        }
    }
}

/// The turn state that an operation leaves: the state that it commits, or the
/// state as it was where the operation is refused.
pub open spec fn state_after(op: BasicOperation, pre: CurrentTurnStateView) -> CurrentTurnStateView {
    match op.outcome(pre) {
        Ok(post) => post,
        Err(_) => pre,
    }
}

/// The turn state that a sequence of operations leaves, applied from the
/// first to the last, refused or not.
pub open spec fn state_after_all(
    pre: CurrentTurnStateView,
    ops: Seq<BasicOperation>,
) -> CurrentTurnStateView
    decreases ops.len(),
{
    if ops.len() == 0 {
        pre
    } else {
        state_after(ops.last(), state_after_all(pre, ops.drop_last()))
    }
}

/// What every operation keeps of a turn state: no ledger of the board holds
/// a key with a count of zero, and no two discovered systems have the same
/// name.
pub open spec fn board_invariant(state: CurrentTurnStateView) -> bool {
    &&& state.game_board.counts_positive()
    &&& names_distinct(state.game_board.discovered_systems)
}

/// No operation touches the acting player or the two homeworlds.
pub proof fn lemma_operation_keeps_homeworlds(op: BasicOperation, pre: CurrentTurnStateView)
    ensures
        state_after(op, pre).player == pre.player,
        state_after(op, pre).game_board.homeworld_first == pre.game_board.homeworld_first,
        state_after(op, pre).game_board.homeworld_second == pre.game_board.homeworld_second,
{
}

/// An operation, accepted or refused, keeps the counts of every ledger
/// between 1 and 255 and the names of the discovered systems distinct.
pub proof fn lemma_operation_keeps_invariant(op: BasicOperation, pre: CurrentTurnStateView)
    requires
        board_invariant(pre),
    ensures
        board_invariant(state_after(op, pre)),
{
    let post = state_after(op, pre);
    let before = pre.game_board.discovered_systems;
    let after = post.game_board.discovered_systems;
    if op.outcome(pre) is Ok {
        match op {
            BasicOperation::DiscoverSystem(discover) => {
                lemma_discovery_keeps_names_distinct(discover, pre);
                assert forall|i: int| 0 <= i < after.len() implies (
                #[trigger] after[i]).counts_positive() by {
                    if i < before.len() {
                        assert(before[i].counts_positive());
                    }
                }
            },
            BasicOperation::ForgetSystem(forget) => {
                lemma_forgetting_removes_one(forget, pre);
                lemma_first_named_some(before, forget.star_system_name@);
                let index = first_named(before, forget.star_system_name@)->0;
                assert forall|i: int| 0 <= i < after.len() implies (
                #[trigger] after[i]).counts_positive() by {
                    let from = if i < index { i } else { i + 1 };
                    assert(before[from].counts_positive());
                }
            },
            BasicOperation::UpdatePendingPowers(_) => {},
            BasicOperation::UpdateFleet(update) => {
                lemma_first_named_some(before, update.star_system_name@);
                let index = first_named(before, update.star_system_name@)->0;
                assert(before[index].counts_positive());
                lemma_update_keeps_counts_positive(
                    before[index].fleet(update.player),
                    update.starship,
                    update.delta,
                );
                assert forall|i: int| 0 <= i < after.len() implies (
                #[trigger] after[i]).counts_positive() by {
                    assert(before[i].counts_positive());
                }
                assert forall|i: int, j: int| 0 <= i < j < after.len() implies (
                #[trigger] after[i]).name != (#[trigger] after[j]).name by {
                    assert(before[i].name != before[j].name);
                }
            },
            BasicOperation::UpdateBank(update) => {
                lemma_update_keeps_counts_positive(
                    pre.game_board.bank,
                    update.pyramid,
                    update.delta,
                );
            },
            BasicOperation::DestroyStar(destroy) => {
                lemma_first_named_some(before, destroy.star_system_name@);
                assert forall|i: int| 0 <= i < after.len() implies (
                #[trigger] after[i]).counts_positive() by {
                    assert(before[i].counts_positive());
                }
                assert forall|i: int, j: int| 0 <= i < j < after.len() implies (
                #[trigger] after[i]).name != (#[trigger] after[j]).name by {
                    assert(before[i].name != before[j].name);
                }
            },
            BasicOperation::SetCurrentTurnStatus(_) => {},
        }
    }
}

/// Whatever operations a turn goes through, accepted or refused, no ledger
/// ever holds a key with a count of zero, no two discovered systems ever
/// have the same name, and the acting player and the homeworlds stay as they
/// were.
pub proof fn lemma_operations_keep_invariant(pre: CurrentTurnStateView, ops: Seq<BasicOperation>)
    requires
        board_invariant(pre),
    ensures
        board_invariant(state_after_all(pre, ops)),
        state_after_all(pre, ops).player == pre.player,
        state_after_all(pre, ops).game_board.homeworld_first == pre.game_board.homeworld_first,
        state_after_all(pre, ops).game_board.homeworld_second == pre.game_board.homeworld_second,
    decreases ops.len(),
{
    if ops.len() > 0 {
        let before_last = state_after_all(pre, ops.drop_last());
        lemma_operations_keep_invariant(pre, ops.drop_last());
        lemma_operation_keeps_invariant(ops.last(), before_last);
        lemma_operation_keeps_homeworlds(ops.last(), before_last);
    }
}

/// Whatever operations a turn goes through, powers that are exhausted stay
/// exhausted as they are, and a phase other than that of making actions stays
/// the phase of the turn.
pub proof fn lemma_operations_keep_what_is_final(
    pre: CurrentTurnStateView,
    ops: Seq<BasicOperation>,
)
    ensures
        pre.pending_powers is Exhausted ==> state_after_all(pre, ops).pending_powers
            == pre.pending_powers,
        pre.current_turn_status != CurrentTurnStatus::MakingActions ==> state_after_all(
            pre,
            ops,
        ).current_turn_status == pre.current_turn_status,
    decreases ops.len(),
{
    if ops.len() > 0 {
        lemma_operations_keep_what_is_final(pre, ops.drop_last());
    }
}

} // verus!
