use super::{Apply, OperationError};
use crate::public::current_turn::{CurrentTurnState, CurrentTurnStateView, CurrentTurnStatus};
use vstd::prelude::*;

verus! {

/// Changes the phase of the current turn.
#[derive(Clone, Copy, Debug)]
pub struct SetCurrentTurnStatus {
    pub new_status: CurrentTurnStatus,
}

/// Why the phase of the current turn was not changed.
#[derive(Clone, Copy, Debug, PartialEq, Eq, Structural)]
pub enum SetCurrentTurnStatusError {
    /// The turn has left the phase of making actions.
    CanOnlyChangeFromMakingActions,
    /// The turn is in the phase asked for already.
    NoChange,
}

/// Whether the phase of a turn may change from `current` to `target`: the
/// two must differ, and only the phase of making actions can be left.
pub open spec fn status_change(current: CurrentTurnStatus, target: CurrentTurnStatus) -> Result<
    CurrentTurnStatus,
    SetCurrentTurnStatusError,
> {
    if current == target {
        Err(SetCurrentTurnStatusError::NoChange)
    } else if current != CurrentTurnStatus::MakingActions {
        Err(SetCurrentTurnStatusError::CanOnlyChangeFromMakingActions)
    } else {
        Ok(target)
    }
}

impl Apply for SetCurrentTurnStatus {
    open spec fn outcome(&self, pre: CurrentTurnStateView) -> Result<
        CurrentTurnStateView,
        OperationError,
    > {
        match status_change(pre.current_turn_status, self.new_status) {
            Ok(status) => Ok(CurrentTurnStateView { current_turn_status: status, ..pre }),
            Err(error) => Err(OperationError::SetCurrentTurnStatusError(error)),
        }
    }

    fn apply(self, state: &mut CurrentTurnState) -> (result: Result<(), OperationError>) {
        if state.current_turn_status == self.new_status {
            return Err(SetCurrentTurnStatusError::NoChange.into());
        }
        if state.current_turn_status != CurrentTurnStatus::MakingActions {
            return Err(SetCurrentTurnStatusError::CanOnlyChangeFromMakingActions.into());
        }
        state.current_turn_status = self.new_status;
        Ok(())
    }
}

/// Only the phase of making actions can be left: from any other phase every
/// change is refused, a change to the same phase as no change and a change
/// to another phase as coming too late.
pub proof fn lemma_left_phases_are_final(current: CurrentTurnStatus, target: CurrentTurnStatus)
    requires
        current != CurrentTurnStatus::MakingActions,
    ensures
        status_change(current, target) == Err::<CurrentTurnStatus, SetCurrentTurnStatusError>(
            if target == current {
                SetCurrentTurnStatusError::NoChange
            } else {
                SetCurrentTurnStatusError::CanOnlyChangeFromMakingActions
            },
        ),
{
}

/// A change of phase that succeeds cannot be made again: the same change is
/// then refused as no change.
pub proof fn lemma_change_succeeds_once(current: CurrentTurnStatus, target: CurrentTurnStatus)
    requires
        status_change(current, target) is Ok,
    ensures
        current == CurrentTurnStatus::MakingActions,
        status_change(current, target) == Ok::<CurrentTurnStatus, SetCurrentTurnStatusError>(
            target,
        ),
        status_change(target, target) == Err::<CurrentTurnStatus, SetCurrentTurnStatusError>(
            SetCurrentTurnStatusError::NoChange,
        ),
{
}

} // verus!
