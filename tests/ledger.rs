use erc20::arith::{checked_add_or_keep, checked_sub_or_keep};
use erc20::ledger::{Error, Event, Module};

const A: u64 = 1;
const B: u64 = 2;
const C: u64 = 3;

fn genesis(total_supply: u128) -> Module {
    Module::new(total_supply, b"Token".to_vec(), b"TKN".to_vec())
}

fn initialized(total_supply: u128) -> Module {
    let mut m = genesis(total_supply);
    assert_eq!(m.init(A), Ok(()));
    m
}

#[test]
fn genesis_is_empty_and_uninitialized() {
    let m = genesis(1000);
    assert!(!m.is_init());
    assert_eq!(m.total_supply(), 1000);
    assert_eq!(m.name(), &b"Token".to_vec());
    assert_eq!(m.ticker(), &b"TKN".to_vec());
    assert_eq!(m.balance_of(A), 0);
    assert!(m.events().is_empty());
}

#[test]
fn init_credits_caller_with_total_supply() {
    let m = initialized(1000);
    assert!(m.is_init());
    assert_eq!(m.balance_of(A), 1000);
    assert_eq!(m.balance_of(B), 0);
    assert!(m.events().is_empty());
}

#[test]
fn second_init_fails_and_changes_nothing() {
    let mut m = initialized(1000);
    assert_eq!(m.init(B), Err(Error::AlreadyInitialized));
    assert_eq!(m.init(A), Err(Error::AlreadyInitialized));
    assert_eq!(m.balance_of(A), 1000);
    assert_eq!(m.balance_of(B), 0);
    assert!(m.is_init());
}

#[test]
fn operations_before_init_find_no_account() {
    let mut m = genesis(1000);
    assert_eq!(m.transfer(A, B, 1), Err(Error::NoAccount));
    assert_eq!(m.approve(A, B, 1), Err(Error::NoAccount));
    assert_eq!(m.transfer_from(A, B, 1), Err(Error::NoAllowance));
    assert!(m.events().is_empty());
}

#[test]
fn transfer_moves_value_and_conserves_sum() {
    let mut m = initialized(1000);
    assert_eq!(m.transfer(A, B, 250), Ok(()));
    assert_eq!(m.balance_of(A), 750);
    assert_eq!(m.balance_of(B), 250);
    assert_eq!(m.balance_of(A) + m.balance_of(B), 1000);
    assert_eq!(m.events(), &vec![Event::Transfer(A, B, 250)]);
}

#[test]
fn transfer_to_self_keeps_balance() {
    let mut m = initialized(1000);
    assert_eq!(m.transfer(A, A, 400), Ok(()));
    assert_eq!(m.balance_of(A), 1000);
    assert_eq!(m.events(), &vec![Event::Transfer(A, A, 400)]);
}

#[test]
fn transfer_of_entire_balance_is_refused() {
    let mut m = initialized(1000);
    assert_eq!(m.transfer(A, B, 1000), Err(Error::InsufficientBalance));
    assert_eq!(m.balance_of(A), 1000);
    assert_eq!(m.balance_of(B), 0);
    assert!(m.events().is_empty());
}

#[test]
fn transfer_of_balance_less_one_succeeds() {
    let mut m = initialized(1000);
    assert_eq!(m.transfer(A, B, 999), Ok(()));
    assert_eq!(m.balance_of(A), 1);
    assert_eq!(m.balance_of(B), 999);
}

#[test]
fn transfer_over_balance_is_refused() {
    let mut m = initialized(1000);
    assert_eq!(m.transfer(A, B, 1001), Err(Error::InsufficientBalance));
    assert_eq!(m.balance_of(A), 1000);
}

#[test]
fn transfer_from_unknown_account_fails() {
    let mut m = initialized(1000);
    assert_eq!(m.transfer(B, A, 1), Err(Error::NoAccount));
    assert_eq!(m.balance_of(A), 1000);
}

#[test]
fn transfer_of_whole_supply_cannot_overflow() {
    let mut m = initialized(u128::MAX);
    assert_eq!(m.transfer(A, B, u128::MAX - 1), Ok(()));
    assert_eq!(m.balance_of(A), 1);
    assert_eq!(m.balance_of(B), u128::MAX - 1);
}

#[test]
fn approve_twice_accumulates() {
    let mut m = initialized(1000);
    assert_eq!(m.approve(A, C, 100), Ok(()));
    assert_eq!(m.approve(A, C, 50), Ok(()));
    assert_eq!(m.allowance((A, C)), 150);
    assert_eq!(
        m.events(),
        &vec![Event::Approval(A, C, 100), Event::Approval(A, C, 50)]
    );
}

#[test]
fn approve_overflow_keeps_allowance_and_records_event() {
    let mut m = initialized(1000);
    assert_eq!(m.approve(A, C, u128::MAX - 5), Ok(()));
    assert_eq!(m.approve(A, C, 10), Ok(()));
    assert_eq!(m.allowance((A, C)), u128::MAX - 5);
    assert_eq!(
        m.events(),
        &vec![Event::Approval(A, C, u128::MAX - 5), Event::Approval(A, C, 10)]
    );
}

#[test]
fn approve_without_account_fails() {
    let mut m = initialized(1000);
    assert_eq!(m.approve(B, C, 10), Err(Error::NoAccount));
    assert_eq!(m.allowance((B, C)), 0);
    assert!(m.events().is_empty());
}

#[test]
fn transfer_from_without_allowance_fails() {
    let mut m = initialized(1000);
    assert_eq!(m.transfer_from(A, B, 1), Err(Error::NoAllowance));
    assert_eq!(m.balance_of(A), 1000);
}

#[test]
fn transfer_from_over_allowance_changes_nothing() {
    let mut m = initialized(1000);
    assert_eq!(m.approve(A, B, 100), Ok(()));
    assert_eq!(m.transfer_from(A, B, 101), Err(Error::InsufficientAllowance));
    assert_eq!(m.allowance((A, B)), 100);
    assert_eq!(m.balance_of(A), 1000);
    assert_eq!(m.balance_of(B), 0);
    assert_eq!(m.events(), &vec![Event::Approval(A, B, 100)]);
}

#[test]
fn transfer_from_keeps_charge_when_balance_is_short() {
    let mut m = initialized(1000);
    assert_eq!(m.approve(A, B, 1000), Ok(()));
    assert_eq!(m.transfer_from(A, B, 1000), Err(Error::InsufficientBalance));
    assert_eq!(m.allowance((A, B)), 0);
    assert_eq!(m.balance_of(A), 1000);
    assert_eq!(
        m.events(),
        &vec![Event::Approval(A, B, 1000), Event::Approval(A, B, 1000)]
    );
}

#[test]
fn token_walkthrough() {
    let mut m = genesis(1000);
    assert_eq!(m.init(A), Ok(()));
    assert_eq!(m.balance_of(A), 1000);
    assert_eq!(m.transfer(A, B, 400), Ok(()));
    assert_eq!(m.balance_of(A), 600);
    assert_eq!(m.balance_of(B), 400);
    assert_eq!(m.events(), &vec![Event::Transfer(A, B, 400)]);
    assert_eq!(m.approve(A, C, 300), Ok(()));
    assert_eq!(m.allowance((A, C)), 300);
    // The allowance consulted is the one from `from` to `to`.
    assert_eq!(m.transfer_from(A, B, 300), Err(Error::NoAllowance));
    assert_eq!(m.allowance((A, C)), 300);
    assert_eq!(m.balance_of(A), 600);
    assert_eq!(m.balance_of(B), 400);
    assert_eq!(m.approve(A, B, 300), Ok(()));
    assert_eq!(m.transfer_from(A, B, 300), Ok(()));
    assert_eq!(m.allowance((A, B)), 0);
    assert_eq!(m.balance_of(A), 300);
    assert_eq!(m.balance_of(B), 700);
    assert_eq!(
        m.events(),
        &vec![
            Event::Transfer(A, B, 400),
            Event::Approval(A, C, 300),
            Event::Approval(A, B, 300),
            Event::Approval(A, B, 300),
            Event::Transfer(A, B, 300),
        ]
    );
}

#[test]
fn delegated_transfer_to_spender() {
    let mut m = initialized(1000);
    assert_eq!(m.approve(A, C, 300), Ok(()));
    assert_eq!(m.transfer_from(A, C, 300), Ok(()));
    assert_eq!(m.allowance((A, C)), 0);
    assert_eq!(m.balance_of(A), 700);
    assert_eq!(m.balance_of(C), 300);
}

#[test]
fn checked_helpers_keep_value_on_failure() {
    assert_eq!(checked_add_or_keep(2, 3), 5);
    assert_eq!(checked_add_or_keep(u128::MAX, 1), u128::MAX);
    assert_eq!(checked_sub_or_keep(5, 3), 2);
    assert_eq!(checked_sub_or_keep(3, 5), 3);
    assert_eq!(checked_sub_or_keep(5, 5), 0);
}
