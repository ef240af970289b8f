use homeworlds_engine::engine::operations::turn::{
    SetCurrentTurnStatus, SetCurrentTurnStatusError,
};
use homeworlds_engine::engine::operations::{Apply, OperationError};
use homeworlds_engine::public::board::{Bank, Fleet, GameBoard, StarSystem, StarSystemCenter};
use homeworlds_engine::public::common::Player;
use homeworlds_engine::public::current_turn::{CurrentTurnState, CurrentTurnStatus, PendingPowers};

fn create_turn_test_state() -> CurrentTurnState {
    CurrentTurnState {
        player: Player::First,
        current_turn_status: CurrentTurnStatus::MakingActions,
        game_board: GameBoard {
            bank: Bank { pyramids: Default::default() },
            homeworld_first: StarSystem {
                name: "Homeworld1".to_string(),
                center: StarSystemCenter::Empty,
                fleet_first: Fleet::default(),
                fleet_second: Fleet::default(),
                is_homeworld_for: Some(Player::First),
            },
            homeworld_second: StarSystem {
                name: "Homeworld2".to_string(),
                center: StarSystemCenter::Empty,
                fleet_first: Fleet::default(),
                fleet_second: Fleet::default(),
                is_homeworld_for: Some(Player::Second),
            },
            discovered_systems: vec![],
        },
        pending_powers: PendingPowers::Nil,
    }
}

#[test]
fn test_set_to_passing() {
    let mut state = create_turn_test_state();
    let op = SetCurrentTurnStatus { new_status: CurrentTurnStatus::Passing };

    let result = op.apply(&mut state);
    assert!(result.is_ok());
    assert!(state.current_turn_status == CurrentTurnStatus::Passing);
}

#[test]
fn test_set_to_resigning() {
    let mut state = create_turn_test_state();
    let op = SetCurrentTurnStatus { new_status: CurrentTurnStatus::Resigning };

    let result = op.apply(&mut state);
    assert!(result.is_ok());
    assert!(state.current_turn_status == CurrentTurnStatus::Resigning);
}

#[test]
fn test_set_to_same() {
    for status in CurrentTurnStatus::all() {
        let mut state = create_turn_test_state();
        state.current_turn_status = status.clone();
        let op = SetCurrentTurnStatus { new_status: status.clone() };

        let result = op.apply(&mut state);
        assert!(matches!(
            result.err(),
            Some(OperationError::SetCurrentTurnStatusError(SetCurrentTurnStatusError::NoChange))
        ));
        assert!(state.current_turn_status == status);
    }
}

#[test]
fn test_set_not_from_making_actions() {
    for status in CurrentTurnStatus::all() {
        if status == CurrentTurnStatus::MakingActions {
            continue;
        }
        let mut state = create_turn_test_state();
        state.current_turn_status = status.clone();
        let op = SetCurrentTurnStatus { new_status: CurrentTurnStatus::MakingActions };

        let result = op.apply(&mut state);
        assert!(matches!(
            result.err(),
            Some(OperationError::SetCurrentTurnStatusError(
                SetCurrentTurnStatusError::CanOnlyChangeFromMakingActions
            ))
        ));
        assert!(state.current_turn_status == status);
    }
}

#[test]
fn passing_succeeds_once() {
    let mut state = create_turn_test_state();
    let op = SetCurrentTurnStatus { new_status: CurrentTurnStatus::Passing };
    assert_eq!(op.apply(&mut state), Ok(()));
    assert_eq!(state.current_turn_status, CurrentTurnStatus::Passing);
    assert_eq!(
        op.apply(&mut state),
        Err(OperationError::SetCurrentTurnStatusError(SetCurrentTurnStatusError::NoChange))
    );
    assert_eq!(state.current_turn_status, CurrentTurnStatus::Passing);
    for target in [CurrentTurnStatus::MakingActions, CurrentTurnStatus::Resigning] {
        let op = SetCurrentTurnStatus { new_status: target };
        assert_eq!(
            op.apply(&mut state),
            Err(OperationError::SetCurrentTurnStatusError(
                SetCurrentTurnStatusError::CanOnlyChangeFromMakingActions
            ))
        );
        assert_eq!(state.current_turn_status, CurrentTurnStatus::Passing);
    }
}

#[test]
fn opponent_is_the_other_player() {
    assert_eq!(Player::First.opponent(), Player::Second);
    assert_eq!(Player::Second.opponent(), Player::First);
    assert_eq!(Player::First.opponent().opponent(), Player::First);
}

#[test]
fn all_phases_are_listed_once() {
    assert_eq!(
        CurrentTurnStatus::all(),
        [CurrentTurnStatus::MakingActions, CurrentTurnStatus::Passing, CurrentTurnStatus::Resigning]
    );
}
