use super::{Apply, OperationError};
use crate::public::common::{Count, Power};
use crate::public::current_turn::{
    CurrentTurnState, CurrentTurnStateView, PendingPowers, PendingPowersView,
};
use vstd::prelude::*;

verus! {

/// Grants the turn's power, or uses it once.
#[derive(Clone, Copy, Debug)]
pub enum UpdatePendingPowers {
    /// Grants `power` for `count` uses.
    SetPower { power: Power, count: Count },
    /// Uses the granted power once.
    UseOne,
}

/// Why the pending powers were not updated.
#[derive(Clone, Copy, Debug, PartialEq, Eq, Structural)]
pub enum UpdatePendingPowersError {
    /// A power was granted this turn already.
    CanOnlyBeSetOnce,
    /// No power was granted this turn.
    NotSet,
    /// The power that was granted is used up.
    AlreadyExhausted,
}

/// The pending powers after a power is granted for `count` uses: only a turn
/// without a power can be granted one.
pub open spec fn powers_after_set(powers: PendingPowersView, power: Power, count: nat) -> Result<
    PendingPowersView,
    UpdatePendingPowersError,
> {
    match powers {
        PendingPowersView::Nil => Ok(
            PendingPowersView::Pending { power, count, original_count: count },
        ),
        _ => Err(UpdatePendingPowersError::CanOnlyBeSetOnce),
    }
}

/// The pending powers after one use: a use is taken off the count, and the
/// last use leaves the power exhausted.
pub open spec fn powers_after_use(powers: PendingPowersView) -> Result<
    PendingPowersView,
    UpdatePendingPowersError,
> {
    match powers {
        PendingPowersView::Nil => Err(UpdatePendingPowersError::NotSet),
        PendingPowersView::Pending { power, count, original_count } => if count > 1 {
            Ok(PendingPowersView::Pending { power, count: (count - 1) as nat, original_count })
        } else {
            Ok(PendingPowersView::Exhausted { power, original_count })
        },
        PendingPowersView::Exhausted { .. } => Err(UpdatePendingPowersError::AlreadyExhausted),
    }
}

impl UpdatePendingPowers {
    /// What the update makes of pending powers.
    pub open spec fn updated(&self, powers: PendingPowersView) -> Result<
        PendingPowersView,
        UpdatePendingPowersError,
    > {
        match *self {
            UpdatePendingPowers::SetPower { power, count } => powers_after_set(powers, power, count@),
            UpdatePendingPowers::UseOne => powers_after_use(powers),
        }
    }
}

impl Apply for UpdatePendingPowers {
    open spec fn outcome(&self, pre: CurrentTurnStateView) -> Result<
        CurrentTurnStateView,
        OperationError,
    > {
        match self.updated(pre.pending_powers) {
            Ok(powers) => Ok(CurrentTurnStateView { pending_powers: powers, ..pre }),
            Err(error) => Err(OperationError::UpdatePendingPowersError(error)),
        }
    }

    fn apply(self, state: &mut CurrentTurnState) -> (result: Result<(), OperationError>) {
        let pending_powers = state.pending_powers;
        let new_powers = match self {
            UpdatePendingPowers::SetPower { power, count } => match pending_powers {
                PendingPowers::Nil => PendingPowers::Pending { power, count, original_count: count },
                _ => {
                    return Err(UpdatePendingPowersError::CanOnlyBeSetOnce.into());
                },
            },
            UpdatePendingPowers::UseOne => match pending_powers {
                PendingPowers::Pending { power, count, original_count } => {
                    match count.checked_pred() {
                        Some(count) => PendingPowers::Pending { power, count, original_count },
                        None => PendingPowers::Exhausted { power, original_count },
                    }
                },
                PendingPowers::Nil => {
                    return Err(UpdatePendingPowersError::NotSet.into());
                },
                PendingPowers::Exhausted { .. } => {
                    return Err(UpdatePendingPowersError::AlreadyExhausted.into());
                },
            },
        };
        state.pending_powers = new_powers;
        Ok(())
    }
}

/// The pending powers after `uses` uses in a row, or the error of the first
/// use that is refused.
pub open spec fn powers_after_uses(powers: PendingPowersView, uses: nat) -> Result<
    PendingPowersView,
    UpdatePendingPowersError,
>
    decreases uses,
{
    if uses == 0 {
        Ok(powers)
    } else {
        match powers_after_use(powers) {
            Ok(next) => powers_after_uses(next, (uses - 1) as nat),
            Err(error) => Err(error),
        }
    }
}

/// A power granted for `count` uses counts down by one with each use, is
/// exhausted by the last of them, keeps the power and the number granted, and
/// refuses every use after that.
pub proof fn lemma_uses_count_down(power: Power, count: nat, original_count: nat, uses: nat)
    requires
        count >= 1,
    ensures
        powers_after_uses(PendingPowersView::Pending { power, count, original_count }, uses) == (
        if uses < count {
            Ok::<PendingPowersView, UpdatePendingPowersError>(
                PendingPowersView::Pending { power, count: (count - uses) as nat, original_count },
            )
        } else if uses == count {
            Ok::<PendingPowersView, UpdatePendingPowersError>(
                PendingPowersView::Exhausted { power, original_count },
            )
        } else {
            Err::<PendingPowersView, UpdatePendingPowersError>(
                UpdatePendingPowersError::AlreadyExhausted,
            )
        }),
    decreases uses,
{
    let exhausted = PendingPowersView::Exhausted { power, original_count };
    if uses == 0 {
    } else if count > 1 {
        lemma_uses_count_down(power, (count - 1) as nat, original_count, (uses - 1) as nat);
    } else if uses == 1 {
        assert(powers_after_uses(exhausted, 0) == Ok::<
            PendingPowersView,
            UpdatePendingPowersError,
        >(exhausted));
    } else {
        assert(powers_after_uses(exhausted, (uses - 1) as nat) == Err::<
            PendingPowersView,
            UpdatePendingPowersError,
        >(UpdatePendingPowersError::AlreadyExhausted));
    }
}

/// A turn is granted a power at most once: whatever was granted before,
/// pending or exhausted, refuses another grant, and exhausted powers refuse
/// every update.
pub proof fn lemma_granted_once(update: UpdatePendingPowers, powers: PendingPowersView)
    ensures
        update is SetPower && !(powers is Nil) ==> update.updated(powers) == Err::<
            PendingPowersView,
            UpdatePendingPowersError,
        >(UpdatePendingPowersError::CanOnlyBeSetOnce),
        powers is Exhausted ==> update.updated(powers) is Err,
        update.updated(powers) is Ok ==> !(update.updated(powers)->Ok_0 is Nil),
{
}

} // verus!
