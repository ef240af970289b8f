use super::board::{GameBoard, GameBoardView};
use super::common::{Count, Player, Power};
use vstd::prelude::*;

verus! {

/// The one power that a turn may grant, through its three phases.
#[derive(Clone, Copy, Debug, PartialEq, Eq)]
pub enum PendingPowers {
    /// No power was granted this turn.
    Nil,
    /// `power` may be used `count` more times, of the `original_count` granted.
    Pending { power: Power, count: Count, original_count: Count },
    /// `power` was granted `original_count` times and is used up.
    Exhausted { power: Power, original_count: Count },
}

/// What a pending-powers value is, as plain values.
pub enum PendingPowersView {
    Nil,
    Pending { power: Power, count: nat, original_count: nat },
    Exhausted { power: Power, original_count: nat },
}

impl View for PendingPowers {
    type V = PendingPowersView;

    open spec fn view(&self) -> PendingPowersView {
        match *self {
            PendingPowers::Nil => PendingPowersView::Nil,
            PendingPowers::Pending { power, count, original_count } => PendingPowersView::Pending {
                power,
                count: count@,
                original_count: original_count@,
            },
            PendingPowers::Exhausted { power, original_count } => PendingPowersView::Exhausted {
                power,
                original_count: original_count@,
            },
        }
    }
}

/// The phase of the current turn.
#[derive(Clone, Copy, Debug, PartialEq, Eq, Structural)]
pub enum CurrentTurnStatus {
    MakingActions,
    Passing,
    Resigning,
}

impl CurrentTurnStatus {
    /// Every phase of a turn, in the order of their declaration.
    pub fn all() -> (phases: [CurrentTurnStatus; 3])
        ensures
            phases@ == seq![
                CurrentTurnStatus::MakingActions,
                CurrentTurnStatus::Passing,
                CurrentTurnStatus::Resigning,
            ],
            forall|phase: CurrentTurnStatus| phases@.contains(phase),
    {
        let phases = [
            CurrentTurnStatus::MakingActions,
            CurrentTurnStatus::Passing,
            CurrentTurnStatus::Resigning,
        ];
        proof {
            assert(phases@ =~= seq![
                CurrentTurnStatus::MakingActions,
                CurrentTurnStatus::Passing,
                CurrentTurnStatus::Resigning,
            ]);
            assert(phases@[0] == CurrentTurnStatus::MakingActions);
            assert(phases@[1] == CurrentTurnStatus::Passing);
            assert(phases@[2] == CurrentTurnStatus::Resigning);
        }
        phases
    }
}

/// The state of the current turn: who acts, the board, the pending power and
/// the phase.
#[derive(Debug, PartialEq, Eq)]
pub struct CurrentTurnState {
    pub player: Player,
    pub game_board: GameBoard,
    pub pending_powers: PendingPowers,
    pub current_turn_status: CurrentTurnStatus,
}

/// What a turn state is, as plain values.
pub struct CurrentTurnStateView {
    pub player: Player,
    pub game_board: GameBoardView,
    pub pending_powers: PendingPowersView,
    pub current_turn_status: CurrentTurnStatus,
}

impl View for CurrentTurnState {
    type V = CurrentTurnStateView;

    open spec fn view(&self) -> CurrentTurnStateView {
        CurrentTurnStateView {
            player: self.player,
            game_board: self.game_board@,
            pending_powers: self.pending_powers@,
            current_turn_status: self.current_turn_status,
        }
    }
}

impl CurrentTurnState {
    /// Every ledger of the board is well formed.
    pub open spec fn wf(&self) -> bool {
        self.game_board.wf()
    }
}

} // verus!
