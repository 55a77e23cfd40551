use dead_mans_switch::custody::{sweep, transfer_in, Wallet};
use dead_mans_switch::guard::{authorize, Action};
use dead_mans_switch::identity::Identity;
use dead_mans_switch::switch::{DeadManSwitch, SwitchError, SwitchState};

fn id(byte: u8) -> Identity {
    Identity::new([byte; 32])
}

fn wallet(byte: u8, lamports: u64) -> Wallet {
    Wallet { key: id(byte), lamports }
}

fn record(state: SwitchState) -> DeadManSwitch {
    DeadManSwitch {
        owner: id(1),
        beneficiary: id(2),
        deadline: 1000,
        state,
        bump: 255,
        escrow_bump: 254,
        seed: String::from("s1"),
        last_activity: 0,
    }
}

#[test]
fn sweep_moves_the_whole_balance() {
    let mut holding = wallet(9, 100);
    let mut destination = wallet(2, 5);
    assert_eq!(sweep(&mut holding, &mut destination), 100);
    assert_eq!(holding, wallet(9, 0));
    assert_eq!(destination, wallet(2, 105));
}

#[test]
fn sweep_of_an_empty_holding_moves_nothing() {
    let mut holding = wallet(9, 0);
    let mut destination = wallet(2, 5);
    assert_eq!(sweep(&mut holding, &mut destination), 0);
    assert_eq!(holding, wallet(9, 0));
    assert_eq!(destination, wallet(2, 5));
}

#[test]
fn sweep_reaches_the_largest_balance() {
    let mut holding = wallet(9, u64::MAX - 5);
    let mut destination = wallet(2, 5);
    assert_eq!(sweep(&mut holding, &mut destination), u64::MAX - 5);
    assert_eq!(holding.lamports, 0);
    assert_eq!(destination.lamports, u64::MAX);
}

#[test]
fn sweep_twice_moves_nothing_the_second_time() {
    let mut holding = wallet(9, 40);
    let mut destination = wallet(2, 2);
    assert_eq!(sweep(&mut holding, &mut destination), 40);
    assert_eq!(sweep(&mut holding, &mut destination), 0);
    assert_eq!(destination.lamports, 42);
}

#[test]
fn transfer_in_moves_the_amount() {
    let mut source = wallet(1, 150);
    let mut holding = wallet(9, 7);
    assert_eq!(transfer_in(&mut source, &mut holding, 100), Ok(()));
    assert_eq!(source, wallet(1, 50));
    assert_eq!(holding, wallet(9, 107));
}

#[test]
fn transfer_in_may_take_all_that_the_source_holds() {
    let mut source = wallet(1, 150);
    let mut holding = wallet(9, 0);
    assert_eq!(transfer_in(&mut source, &mut holding, 150), Ok(()));
    assert_eq!(source.lamports, 0);
    assert_eq!(holding.lamports, 150);
}

#[test]
fn transfer_in_refuses_zero() {
    let mut source = wallet(1, 150);
    let mut holding = wallet(9, 7);
    assert_eq!(transfer_in(&mut source, &mut holding, 0), Err(SwitchError::InvalidAmount));
    assert_eq!(source, wallet(1, 150));
    assert_eq!(holding, wallet(9, 7));
}

#[test]
fn transfer_in_refuses_more_than_the_source_holds() {
    let mut source = wallet(1, 150);
    let mut holding = wallet(9, 7);
    assert_eq!(transfer_in(&mut source, &mut holding, 151), Err(SwitchError::InsufficientFunds));
    assert_eq!(source, wallet(1, 150));
    assert_eq!(holding, wallet(9, 7));
}

#[test]
fn transfer_in_then_sweep_conserves_the_funds() {
    let mut source = wallet(1, 1_000);
    let mut holding = wallet(9, 0);
    let mut destination = wallet(2, 11);
    let all = source.lamports + holding.lamports + destination.lamports;
    assert_eq!(transfer_in(&mut source, &mut holding, 300), Ok(()));
    assert_eq!(source.lamports + holding.lamports + destination.lamports, all);
    assert_eq!(transfer_in(&mut source, &mut holding, 200), Ok(()));
    assert_eq!(source.lamports + holding.lamports + destination.lamports, all);
    assert_eq!(sweep(&mut holding, &mut destination), 500);
    assert_eq!(source.lamports + holding.lamports + destination.lamports, all);
    assert_eq!((source.lamports, holding.lamports, destination.lamports), (500, 0, 511));
}

#[test]
fn authorize_binds_the_owners_actions_to_the_owner() {
    let switch = record(SwitchState::Active);
    for action in [Action::Deposit, Action::CheckIn, Action::Cancel] {
        assert!(authorize(action, &id(1), &switch));
        assert!(!authorize(action, &id(2), &switch));
        assert!(!authorize(action, &id(3), &switch));
    }
}

#[test]
fn authorize_binds_a_claim_to_the_beneficiary() {
    let switch = record(SwitchState::Active);
    assert!(authorize(Action::Claim, &id(2), &switch));
    assert!(!authorize(Action::Claim, &id(1), &switch));
    assert!(!authorize(Action::Claim, &id(3), &switch));
}

#[test]
fn authorize_does_not_look_at_the_state() {
    for state in [SwitchState::Claimed, SwitchState::Cancelled] {
        let switch = record(state);
        assert!(authorize(Action::Cancel, &id(1), &switch));
        assert!(!authorize(Action::CheckIn, &id(2), &switch));
        assert!(authorize(Action::Claim, &id(2), &switch));
    }
}

#[test]
fn is_active_only_when_active() {
    assert!(record(SwitchState::Active).is_active());
    assert!(!record(SwitchState::Claimed).is_active());
    assert!(!record(SwitchState::Cancelled).is_active());
}
