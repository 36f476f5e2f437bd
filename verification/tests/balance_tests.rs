use payments_engine::amount::Amount;
use payments_engine::domain::{Account, Balance, DomainError};

fn units(count: i64) -> Amount {
    Amount::from_units(count)
}

#[test]
fn new_balance_keeps_both_sums() {
    let balance = Balance::new(units(70), units(30));
    assert_eq!(balance.available(), units(70));
    assert_eq!(balance.held(), units(30));
    assert_eq!(balance.total(), units(100));
    assert_eq!(balance.checked_total(), Some(units(100)));
}

#[test]
fn default_account_is_empty_and_unlocked() {
    let account = Account::default();
    assert_eq!(account.balance, Balance::new(units(0), units(0)));
    assert_eq!(account.balance, Balance::default());
    assert!(!account.locked);
}

#[test]
fn total_is_available_plus_held() {
    let balance = Balance::new(units(-600_000), units(1_000_000));
    assert_eq!(balance.total(), units(400_000));
}

#[test]
fn checked_total_refuses_what_does_not_fit() {
    let balance = Balance::new(units(i64::MAX), units(1));
    assert_eq!(balance.checked_total(), None);
}

#[test]
fn add_raises_available_and_total() {
    let mut balance = Balance::new(units(10), units(5));
    balance.add(units(7));
    assert_eq!(balance, Balance::new(units(17), units(5)));
    assert_eq!(balance.total(), units(22));
}

#[test]
fn hold_moves_funds_and_keeps_the_total() {
    let mut balance = Balance::new(units(100), units(5));
    balance.hold(units(30));
    assert_eq!(balance, Balance::new(units(70), units(35)));
    assert_eq!(balance.total(), units(105));
}

#[test]
fn hold_may_take_available_below_zero() {
    let mut balance = Balance::new(units(40), units(0));
    balance.hold(units(100));
    assert_eq!(balance, Balance::new(units(-60), units(100)));
    assert_eq!(balance.total(), units(40));
}

#[test]
fn release_moves_funds_back_and_keeps_the_total() {
    let mut balance = Balance::new(units(70), units(35));
    balance.release(units(30));
    assert_eq!(balance, Balance::new(units(100), units(5)));
    assert_eq!(balance.total(), units(105));
}

#[test]
fn hold_then_release_restores_the_balance() {
    let before = Balance::new(units(1_234), units(5_678));
    let mut balance = before;
    balance.hold(units(999));
    balance.release(units(999));
    assert_eq!(balance, before);
}

#[test]
fn try_remove_takes_what_is_available() {
    let mut balance = Balance::new(units(100), units(50));
    assert_eq!(balance.try_remove(units(40)), Ok(()));
    assert_eq!(balance, Balance::new(units(60), units(50)));
    assert_eq!(balance.try_remove(units(60)), Ok(()));
    assert_eq!(balance, Balance::new(units(0), units(50)));
}

#[test]
fn try_remove_refuses_more_than_is_available() {
    let mut balance = Balance::new(units(20), units(80));
    assert_eq!(balance.try_remove(units(50)), Err(DomainError::InsufficientFunds));
    assert_eq!(balance, Balance::new(units(20), units(80)));
    assert_eq!(balance.try_remove(units(21)), Err(DomainError::InsufficientFunds));
    assert_eq!(balance, Balance::new(units(20), units(80)));
}

#[test]
fn remove_takes_funds_whether_available_or_not() {
    let mut balance = Balance::new(units(40), units(0));
    balance.remove(units(100));
    assert_eq!(balance, Balance::new(units(-60), units(0)));
    assert_eq!(balance.total(), units(-60));
}

#[test]
fn domain_error_describes_itself() {
    assert_eq!(DomainError::InsufficientFunds.message(), "Insufficient funds");
}
