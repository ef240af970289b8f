use super::common::UpdateOneDelta;
use super::utils::{update_hashmap_count, update_refused, updated_ledger};
use super::{Apply, OperationError};
use crate::public::board::GameBoardView;
use crate::public::common::Pyramid;
use crate::public::current_turn::{CurrentTurnState, CurrentTurnStateView};
use vstd::prelude::*;

verus! {

broadcast use vstd::std_specs::hash::group_hash_axioms;

/// Adds one piece to the bank, or takes one from it.
#[derive(Clone, Copy, Debug)]
pub struct UpdateBank {
    pub pyramid: Pyramid,
    pub delta: UpdateOneDelta,
}

/// Why the bank was not updated.
#[derive(Clone, Copy, Debug, PartialEq, Eq, Structural)]
pub enum UpdateBankError {
    /// The bank holds no such piece to take.
    NoPyramidsInBank,
    /// The bank holds 255 such pieces already.
    BankCountOverflow,
}

/// The error with which the bank refuses an update in the direction `delta`.
pub open spec fn bank_refusal(delta: UpdateOneDelta) -> UpdateBankError {
    match delta {
        UpdateOneDelta::AddOne => UpdateBankError::BankCountOverflow,
        UpdateOneDelta::RemoveOne => UpdateBankError::NoPyramidsInBank,
    }
}

impl Apply for UpdateBank {
    open spec fn outcome(&self, pre: CurrentTurnStateView) -> Result<
        CurrentTurnStateView,
        OperationError,
    > {
        let bank = pre.game_board.bank;
        if update_refused(bank.get(self.pyramid), self.delta) {
            Err(OperationError::UpdateBankError(bank_refusal(self.delta)))
        } else {
            Ok(
                CurrentTurnStateView {
                    game_board: GameBoardView {
                        bank: updated_ledger(bank, self.pyramid, self.delta),
                        ..pre.game_board
                    },
                    ..pre
                },
            )
        }
    }

    fn apply(self, state: &mut CurrentTurnState) -> (result: Result<(), OperationError>) {
        let bank = &mut state.game_board.bank;
        let entry = bank.pyramids.entry(self.pyramid.code());
        let updated = update_hashmap_count(
            entry,
            self.delta,
            UpdateBankError::BankCountOverflow,
            UpdateBankError::NoPyramidsInBank,
        );
        proof {
            assert forall|piece: Pyramid| #[trigger]
                piece.spec_code() == self.pyramid.spec_code() implies piece == self.pyramid by {
                Pyramid::lemma_code_injective(piece, self.pyramid);
            }
            if update_refused(old(state)@.game_board.bank.get(self.pyramid), self.delta) {
                assert(state.game_board.bank.pyramids@ =~= old(state).game_board.bank.pyramids@);
            } else {
                assert(state.game_board.bank@ =~= updated_ledger(
                    old(state)@.game_board.bank,
                    self.pyramid,
                    self.delta,
                ));
            }
        }
        match updated {
            Ok(()) => Ok(()),
            Err(error) => Err(error.into()),
        }
    }
}

} // verus!
