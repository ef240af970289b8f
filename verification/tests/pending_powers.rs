use homeworlds_engine::engine::operations::pending_powers::{
    UpdatePendingPowers, UpdatePendingPowersError,
};
use homeworlds_engine::engine::operations::{Apply, OperationError};
use homeworlds_engine::public::board::{Bank, Fleet, GameBoard, StarSystem, StarSystemCenter};
use homeworlds_engine::public::common::{Count, Player, Power};
use homeworlds_engine::public::current_turn::{CurrentTurnState, CurrentTurnStatus, PendingPowers};

fn create_powers_test_state() -> CurrentTurnState {
    CurrentTurnState {
        player: Player::First,
        current_turn_status: CurrentTurnStatus::MakingActions,
        game_board: GameBoard {
            bank: Bank { pyramids: Default::default() },
            homeworld_first: StarSystem {
                name: "Homeworld1".to_string(),
                center: StarSystemCenter::Empty,
                fleet_first: Fleet::default(),
                fleet_second: Fleet::default(),
                is_homeworld_for: Some(Player::First),
            },
            homeworld_second: StarSystem {
                name: "Homeworld2".to_string(),
                center: StarSystemCenter::Empty,
                fleet_first: Fleet::default(),
                fleet_second: Fleet::default(),
                is_homeworld_for: Some(Player::Second),
            },
            discovered_systems: vec![],
        },
        pending_powers: PendingPowers::Nil,
    }
}

#[test]
fn test_set_pending_powers_success() {
    let mut state = create_powers_test_state();
    let op = UpdatePendingPowers::SetPower { power: Power::Build, count: Count::new(3).unwrap() };

    let result = op.apply(&mut state);
    assert!(result.is_ok());
    assert!(matches!(state.pending_powers, PendingPowers::Pending { .. }));
}

#[test]
fn test_set_pending_powers_can_only_be_set_once() {
    let mut state = create_powers_test_state();
    state.pending_powers = PendingPowers::Pending {
        power: Power::Build,
        count: Count::new(2).unwrap(),
        original_count: Count::new(2).unwrap(),
    };

    let op = UpdatePendingPowers::SetPower { power: Power::Trade, count: Count::new(1).unwrap() };

    let result = op.apply(&mut state);
    assert!(matches!(
        result,
        Err(OperationError::UpdatePendingPowersError(UpdatePendingPowersError::CanOnlyBeSetOnce))
    ));
}

#[test]
fn test_use_one_decrement() {
    let mut state = create_powers_test_state();
    state.pending_powers = PendingPowers::Pending {
        power: Power::Build,
        count: Count::new(3).unwrap(),
        original_count: Count::new(3).unwrap(),
    };

    let op = UpdatePendingPowers::UseOne;
    let result = op.apply(&mut state);
    assert!(result.is_ok());

    if let PendingPowers::Pending { count, .. } = state.pending_powers {
        assert_eq!(count.get(), 2);
    } else {
        panic!("Expected Pending state");
    }
}

#[test]
fn test_use_one_exhausts() {
    let mut state = create_powers_test_state();
    state.pending_powers = PendingPowers::Pending {
        power: Power::Build,
        count: Count::new(1).unwrap(),
        original_count: Count::new(3).unwrap(),
    };

    let op = UpdatePendingPowers::UseOne;
    let result = op.apply(&mut state);
    assert!(result.is_ok());
    assert!(matches!(state.pending_powers, PendingPowers::Exhausted { .. }));
}

#[test]
fn test_use_one_not_set() {
    let mut state = create_powers_test_state();
    let op = UpdatePendingPowers::UseOne;

    let result = op.apply(&mut state);
    assert!(matches!(
        result,
        Err(OperationError::UpdatePendingPowersError(UpdatePendingPowersError::NotSet))
    ));
}

#[test]
fn test_use_one_already_exhausted() {
    let mut state = create_powers_test_state();
    state.pending_powers = PendingPowers::Exhausted {
        power: Power::Build,
        original_count: Count::new(3).unwrap(),
    };

    let op = UpdatePendingPowers::UseOne;
    let result = op.apply(&mut state);
    assert!(matches!(
        result,
        Err(OperationError::UpdatePendingPowersError(UpdatePendingPowersError::AlreadyExhausted))
    ));
}

#[test]
fn pending_powers_round_trip() {
    let mut state = create_powers_test_state();
    let three = Count::new(3).unwrap();
    let set = UpdatePendingPowers::SetPower { power: Power::Build, count: three };
    assert_eq!(set.apply(&mut state), Ok(()));
    assert_eq!(
        state.pending_powers,
        PendingPowers::Pending { power: Power::Build, count: three, original_count: three }
    );

    let again = UpdatePendingPowers::SetPower { power: Power::Trade, count: Count::new(2).unwrap() };
    assert_eq!(
        again.apply(&mut state),
        Err(OperationError::UpdatePendingPowersError(UpdatePendingPowersError::CanOnlyBeSetOnce))
    );
    assert_eq!(
        state.pending_powers,
        PendingPowers::Pending { power: Power::Build, count: three, original_count: three }
    );

    assert_eq!(UpdatePendingPowers::UseOne.apply(&mut state), Ok(()));
    assert_eq!(
        state.pending_powers,
        PendingPowers::Pending {
            power: Power::Build,
            count: Count::new(2).unwrap(),
            original_count: three
        }
    );
    assert_eq!(UpdatePendingPowers::UseOne.apply(&mut state), Ok(()));
    assert_eq!(
        state.pending_powers,
        PendingPowers::Pending {
            power: Power::Build,
            count: Count::new(1).unwrap(),
            original_count: three
        }
    );
    assert_eq!(UpdatePendingPowers::UseOne.apply(&mut state), Ok(()));
    assert_eq!(
        state.pending_powers,
        PendingPowers::Exhausted { power: Power::Build, original_count: three }
    );
    assert_eq!(
        UpdatePendingPowers::UseOne.apply(&mut state),
        Err(OperationError::UpdatePendingPowersError(UpdatePendingPowersError::AlreadyExhausted))
    );
    assert_eq!(
        state.pending_powers,
        PendingPowers::Exhausted { power: Power::Build, original_count: three }
    );
}

#[test]
fn exhausted_powers_cannot_be_set_again() {
    let mut state = create_powers_test_state();
    state.pending_powers =
        PendingPowers::Exhausted { power: Power::Move, original_count: Count::new(1).unwrap() };
    let op = UpdatePendingPowers::SetPower { power: Power::Captute, count: Count::new(1).unwrap() };
    assert_eq!(
        op.apply(&mut state),
        Err(OperationError::UpdatePendingPowersError(UpdatePendingPowersError::CanOnlyBeSetOnce))
    );
    assert_eq!(
        state.pending_powers,
        PendingPowers::Exhausted { power: Power::Move, original_count: Count::new(1).unwrap() }
    );
}

#[test]
fn exhausting_keeps_the_power_that_was_granted() {
    let mut state = create_powers_test_state();
    let op = UpdatePendingPowers::SetPower { power: Power::Trade, count: Count::new(1).unwrap() };
    assert_eq!(op.apply(&mut state), Ok(()));
    assert_eq!(UpdatePendingPowers::UseOne.apply(&mut state), Ok(()));
    assert_eq!(
        state.pending_powers,
        PendingPowers::Exhausted { power: Power::Trade, original_count: Count::new(1).unwrap() }
    );
}

#[test]
fn count_is_never_zero() {
    assert_eq!(Count::new(0), None);
    assert_eq!(Count::new(1), Some(Count::one()));
    assert_eq!(Count::new(200).unwrap().get(), 200);
    assert_eq!(Count::one().get(), 1);
    assert_eq!(Count::one().checked_pred(), None);
    assert_eq!(Count::new(2).unwrap().checked_pred(), Some(Count::one()));
    assert_eq!(Count::new(255).unwrap().checked_pred(), Count::new(254));
    assert_eq!(Count::new(254).unwrap().checked_add(1), Count::new(255));
    assert_eq!(Count::new(255).unwrap().checked_add(1), None);
    assert_eq!(Count::new(255).unwrap().checked_add(0), Count::new(255));
    assert_eq!(Count::new(100).unwrap().checked_add(156), None);
    assert_eq!(Count::new(100).unwrap().checked_add(155), Count::new(255));
}
