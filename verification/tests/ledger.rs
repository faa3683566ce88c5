use arbitration::ledger::{same_lock_id, Funds, Ledger};
use arbitration::primitives::{Balance, LedgerError};

const ALICE: u64 = 1;
const BOB: u64 = 2;
const CAROL: u64 = 3;

#[test]
fn a_new_ledger_holds_nothing() {
    let ledger = Ledger::new();
    assert_eq!(ledger.free_balance(ALICE), 0);
    assert_eq!(ledger.reserved_balance(ALICE), 0);
    assert_eq!(ledger.frozen_balance(ALICE), 0);
    assert_eq!(ledger.total_issuance(), 0);
    assert_eq!(ledger.funds_of(BOB), Funds { free: 0, reserved: 0 });
}

#[test]
fn deposit_mints_into_free_value() {
    let mut ledger = Ledger::new();
    assert_eq!(ledger.deposit_creating(ALICE, 100), 100);
    assert_eq!(ledger.deposit_creating(ALICE, 50), 50);
    assert_eq!(ledger.deposit_creating(BOB, 7), 7);
    assert_eq!(ledger.free_balance(ALICE), 150);
    assert_eq!(ledger.free_balance(BOB), 7);
    assert_eq!(ledger.reserved_balance(ALICE), 0);
    assert_eq!(ledger.total_issuance(), 157);
}

#[test]
fn deposit_beyond_measure_mints_nothing() {
    let mut ledger = Ledger::new();
    assert_eq!(ledger.deposit_creating(ALICE, Balance::MAX - 5), Balance::MAX - 5);
    assert_eq!(ledger.deposit_creating(BOB, 6), 0);
    assert_eq!(ledger.free_balance(BOB), 0);
    assert_eq!(ledger.total_issuance(), Balance::MAX - 5);
    assert_eq!(ledger.deposit_creating(BOB, 5), 5);
    assert_eq!(ledger.total_issuance(), Balance::MAX);
}

#[test]
fn reserve_moves_free_value_aside() {
    let mut ledger = Ledger::new();
    ledger.deposit_creating(ALICE, 100);
    assert_eq!(ledger.reserve(ALICE, 30), Ok(()));
    assert_eq!(ledger.funds_of(ALICE), Funds { free: 70, reserved: 30 });
    assert_eq!(ledger.reserve(ALICE, 70), Ok(()));
    assert_eq!(ledger.funds_of(ALICE), Funds { free: 0, reserved: 100 });
    assert_eq!(ledger.total_issuance(), 100);
}

#[test]
fn reserve_is_refused_without_the_funds() {
    let mut ledger = Ledger::new();
    ledger.deposit_creating(ALICE, 100);
    assert_eq!(ledger.reserve(ALICE, 101), Err(LedgerError::InsufficientBalance));
    assert_eq!(ledger.reserve(BOB, 1), Err(LedgerError::InsufficientBalance));
    assert_eq!(ledger.funds_of(ALICE), Funds { free: 100, reserved: 0 });
    assert_eq!(ledger.funds_of(BOB), Funds { free: 0, reserved: 0 });
    assert_eq!(ledger.reserve(BOB, 0), Ok(()));
}

#[test]
fn unreserve_frees_what_is_reserved_and_reports_the_rest() {
    let mut ledger = Ledger::new();
    ledger.deposit_creating(ALICE, 100);
    ledger.reserve(ALICE, 60).unwrap();
    assert_eq!(ledger.unreserve(ALICE, 25), 0);
    assert_eq!(ledger.funds_of(ALICE), Funds { free: 65, reserved: 35 });
    assert_eq!(ledger.unreserve(ALICE, 50), 15);
    assert_eq!(ledger.funds_of(ALICE), Funds { free: 100, reserved: 0 });
    assert_eq!(ledger.unreserve(BOB, 9), 9);
    assert_eq!(ledger.total_issuance(), 100);
}

#[test]
fn slash_destroys_what_is_reserved() {
    let mut ledger = Ledger::new();
    ledger.deposit_creating(ALICE, 100);
    ledger.reserve(ALICE, 60).unwrap();
    assert_eq!(ledger.slash_reserved(ALICE, 25), 25);
    assert_eq!(ledger.funds_of(ALICE), Funds { free: 40, reserved: 35 });
    assert_eq!(ledger.total_issuance(), 75);
    assert_eq!(ledger.slash_reserved(ALICE, 50), 35);
    assert_eq!(ledger.funds_of(ALICE), Funds { free: 40, reserved: 0 });
    assert_eq!(ledger.total_issuance(), 40);
    assert_eq!(ledger.slash_reserved(BOB, 5), 0);
}

#[test]
fn transfer_moves_free_value() {
    let mut ledger = Ledger::new();
    ledger.deposit_creating(ALICE, 100);
    ledger.deposit_creating(BOB, 10);
    assert_eq!(ledger.transfer(ALICE, BOB, 40), Ok(()));
    assert_eq!(ledger.free_balance(ALICE), 60);
    assert_eq!(ledger.free_balance(BOB), 50);
    assert_eq!(ledger.transfer(ALICE, CAROL, 60), Ok(()));
    assert_eq!(ledger.free_balance(ALICE), 0);
    assert_eq!(ledger.free_balance(CAROL), 60);
    assert_eq!(ledger.total_issuance(), 110);
}

#[test]
fn transfer_is_refused_without_the_funds() {
    let mut ledger = Ledger::new();
    ledger.deposit_creating(ALICE, 100);
    ledger.reserve(ALICE, 80).unwrap();
    assert_eq!(ledger.transfer(ALICE, BOB, 21), Err(LedgerError::InsufficientBalance));
    assert_eq!(ledger.funds_of(ALICE), Funds { free: 20, reserved: 80 });
    assert_eq!(ledger.free_balance(BOB), 0);
    assert_eq!(ledger.transfer(ALICE, BOB, 20), Ok(()));
}

#[test]
fn transfer_to_oneself_changes_nothing() {
    let mut ledger = Ledger::new();
    ledger.deposit_creating(ALICE, 100);
    assert_eq!(ledger.transfer(ALICE, ALICE, 100), Ok(()));
    assert_eq!(ledger.free_balance(ALICE), 100);
    assert_eq!(ledger.transfer(ALICE, ALICE, 101), Err(LedgerError::InsufficientBalance));
    assert_eq!(ledger.total_issuance(), 100);
}

#[test]
fn locks_freeze_the_largest_of_them() {
    let mut ledger = Ledger::new();
    ledger.deposit_creating(ALICE, 100);
    ledger.set_lock(*b"lock0001", ALICE, 30);
    assert_eq!(ledger.frozen_balance(ALICE), 30);
    ledger.set_lock(*b"lock0002", ALICE, 70);
    assert_eq!(ledger.frozen_balance(ALICE), 70);
    assert_eq!(ledger.frozen_balance(BOB), 0);
    assert!(ledger.can_withdraw(ALICE, 30));
    assert!(!ledger.can_withdraw(ALICE, 31));
    assert_eq!(ledger.transfer(ALICE, BOB, 31), Err(LedgerError::InsufficientBalance));
    assert_eq!(ledger.reserve(ALICE, 31), Err(LedgerError::InsufficientBalance));
    assert_eq!(ledger.transfer(ALICE, BOB, 30), Ok(()));
    ledger.remove_lock(*b"lock0002", ALICE);
    assert_eq!(ledger.frozen_balance(ALICE), 30);
    assert_eq!(ledger.reserve(ALICE, 40), Ok(()));
    assert_eq!(ledger.reserve(ALICE, 1), Err(LedgerError::InsufficientBalance));
    ledger.remove_lock(*b"lock0001", ALICE);
    assert_eq!(ledger.frozen_balance(ALICE), 0);
    assert_eq!(ledger.reserve(ALICE, 30), Ok(()));
}

#[test]
fn a_lock_set_twice_is_replaced() {
    let mut ledger = Ledger::new();
    ledger.deposit_creating(ALICE, 100);
    ledger.set_lock(*b"lock0001", ALICE, 90);
    ledger.set_lock(*b"lock0001", ALICE, 10);
    assert_eq!(ledger.frozen_balance(ALICE), 10);
    ledger.set_lock(*b"lock0001", BOB, 55);
    assert_eq!(ledger.frozen_balance(ALICE), 10);
    assert_eq!(ledger.frozen_balance(BOB), 55);
    ledger.remove_lock(*b"lock0001", ALICE);
    assert_eq!(ledger.frozen_balance(ALICE), 0);
    assert_eq!(ledger.frozen_balance(BOB), 55);
    ledger.remove_lock(*b"lock0009", BOB);
    assert_eq!(ledger.frozen_balance(BOB), 55);
}

#[test]
fn a_lock_does_not_keep_reserved_value_from_moving() {
    let mut ledger = Ledger::new();
    ledger.deposit_creating(ALICE, 100);
    ledger.reserve(ALICE, 50).unwrap();
    ledger.set_lock(*b"lock0001", ALICE, 100);
    assert_eq!(ledger.slash_reserved(ALICE, 20), 20);
    assert_eq!(ledger.unreserve(ALICE, 30), 0);
    assert_eq!(ledger.funds_of(ALICE), Funds { free: 80, reserved: 0 });
}

#[test]
fn a_snapshot_holds_the_same_and_goes_its_own_way() {
    let mut ledger = Ledger::new();
    ledger.deposit_creating(ALICE, 100);
    ledger.reserve(ALICE, 40).unwrap();
    ledger.set_lock(*b"lock0001", ALICE, 5);
    let mut copy = ledger.snapshot();
    assert_eq!(copy.funds_of(ALICE), Funds { free: 60, reserved: 40 });
    assert_eq!(copy.frozen_balance(ALICE), 5);
    assert_eq!(copy.total_issuance(), 100);
    copy.transfer(ALICE, BOB, 10).unwrap();
    assert_eq!(ledger.free_balance(ALICE), 60);
    assert_eq!(copy.free_balance(ALICE), 50);
}

#[test]
fn names_of_locks_are_compared_byte_by_byte() {
    assert!(same_lock_id(b"tsk/proj", b"tsk/proj"));
    assert!(!same_lock_id(b"tsk/proj", b"tsk/proJ"));
    assert!(!same_lock_id(b"Tsk/proj", b"tsk/proj"));
}
