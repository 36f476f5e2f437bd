use payments_engine::amount::Amount;
use payments_engine::domain::{Account, Balance, Chargeback, ClientId, Deposit, Dispute, Resolve, Transaction};
use payments_engine::engine::PaymentsEngine;
use rust_decimal::Decimal;
use std::collections::HashMap;
use std::str::FromStr;

fn run(transactions: Vec<Transaction>) -> PaymentsEngine {
    let mut engine = PaymentsEngine::new();
    engine.process_transactions(transactions);
    engine
}

fn account(available: Amount, held: Amount, locked: bool) -> Account {
    Account { balance: Balance::new(available, held), locked }
}

/// The amount that `text` writes as a decimal number.
fn dec(text: &str) -> Amount {
    let decimal = Decimal::from_str(text).unwrap();
    Amount::from_scaled(decimal.mantissa(), decimal.scale()).unwrap()
}


/// The clients held funds and total funds should decrease by the amount
/// previously disputed. If a chargeback occurs the client's account should be
/// immediately frozen.
#[test]
fn chargeback_removes_funds_and_locks_account() {
    let engine = run(vec![
        Deposit::new(1.into(), 1.into(), dec("100.0")).into(),
        Dispute::new(1.into(), 1.into()).into(),
        Chargeback::new(1.into(), 1.into()).into(),
    ]);

    let expected = HashMap::from([(ClientId::from(1).raw(), account(dec("0.0"), dec("0.0"), true))]);

    assert_eq!(engine.client_accounts().as_map(), &expected);
}

/// If the tx isn't under dispute, you can ignore chargeback
#[test]
fn chargeback_without_prior_dispute_is_ignored() {
    let engine = run(vec![
        Deposit::new(1.into(), 1.into(), dec("100.0")).into(),
        Chargeback::new(1.into(), 1.into()).into(), // no dispute open
    ]);

    let expected = HashMap::from([(ClientId::from(1).raw(), account(dec("100.0"), dec("0.0"), false))]);

    assert_eq!(engine.client_accounts().as_map(), &expected);
}

/// If the tx specified doesn't exist you can ignore chargeback
#[test]
fn chargeback_on_nonexistent_transaction_is_ignored() {
    let engine = run(vec![
        Deposit::new(1.into(), 1.into(), dec("100.0")).into(),
        Chargeback::new(1.into(), 99.into()).into(),
    ]);

    let expected = HashMap::from([(ClientId::from(1).raw(), account(dec("100.0"), dec("0.0"), false))]);

    assert_eq!(engine.client_accounts().as_map(), &expected);
}

/// Only the disputed amount is reversed - other deposits are unaffected.
#[test]
fn chargeback_preserves_remaining_balance_for_other_deposits() {
    let engine = run(vec![
        Deposit::new(1.into(), 1.into(), dec("50.0")).into(),
        Deposit::new(1.into(), 2.into(), dec("50.0")).into(),
        Dispute::new(1.into(), 1.into()).into(),
        Chargeback::new(1.into(), 1.into()).into(),
    ]);

    let expected = HashMap::from([(ClientId::from(1).raw(), account(dec("50.0"), dec("0.0"), true))]);

    assert_eq!(engine.client_accounts().as_map(), &expected);
}

/// If the tx specified doesn't exist you can ignore chargeback
/// A chargeback referencing another client's tx should be ignored.
#[test]
fn chargeback_on_wrong_client_is_ignored() {
    let engine = run(vec![
        Deposit::new(1.into(), 1.into(), dec("100.0")).into(),
        Dispute::new(1.into(), 1.into()).into(),
        Chargeback::new(2.into(), 1.into()).into(), // client 2 tries to chargeback client 1's tx
    ]);

    let expected = HashMap::from([
        (ClientId::from(1).raw(), account(dec("0.0"), dec("100.0"), false)),
        (ClientId::from(2).raw(), account(dec("0.0"), dec("0.0"), false)),
    ]);

    assert_eq!(engine.client_accounts().as_map(), &expected);
}

/// Chargeback on a tx that was disputed then resolved (no re-dispute)
/// should be ignored because the tx is no longer under dispute.
#[test]
fn chargeback_after_resolve_without_redispute_is_ignored() {
    let engine = run(vec![
        Deposit::new(1.into(), 1.into(), dec("100.0")).into(),
        Dispute::new(1.into(), 1.into()).into(),
        Resolve::new(1.into(), 1.into()).into(),
        Chargeback::new(1.into(), 1.into()).into(), // no active dispute -> ignored
    ]);

    let expected = HashMap::from([(ClientId::from(1).raw(), account(dec("100.0"), dec("0.0"), false))]);

    assert_eq!(engine.client_accounts().as_map(), &expected);
}

/// Transaction cannot be re-disputed after chargeback.
#[test]
fn redispute_after_chargeback_is_ignored() {
    let engine = run(vec![
        Deposit::new(1.into(), 1.into(), dec("100.0")).into(),
        Dispute::new(1.into(), 1.into()).into(),
        Chargeback::new(1.into(), 1.into()).into(),
        Dispute::new(1.into(), 1.into()).into(),
    ]);

    let expected = HashMap::from([(ClientId::from(1).raw(), account(dec("0.0"), dec("0.0"), true))]);

    assert_eq!(engine.client_accounts().as_map(), &expected);
}
