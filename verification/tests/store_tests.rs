use payments_engine::amount::Amount;
use payments_engine::domain::{
    Account, Balance, Chargeback, ClientId, Deposit, Dispute, DisputeState, Resolve, Transaction,
    TransactionId, Withdrawal,
};
use payments_engine::engine::{ClientAccounts, DepositHistory};

fn stored(client: u16, tx: u32, units: i64) -> Deposit {
    Deposit::new(ClientId::new(client), TransactionId::new(tx), Amount::from_units(units))
}

#[test]
fn identifiers_wrap_their_numbers() {
    assert_eq!(ClientId::new(7).raw(), 7);
    assert_eq!(ClientId::from(7), ClientId::new(7));
    assert_eq!(u16::from(ClientId::new(7)), 7);
    assert_eq!(TransactionId::new(70_000).raw(), 70_000);
    assert_eq!(TransactionId::from(9), TransactionId::new(9));
    assert_eq!(u32::from(TransactionId::new(9)), 9);
    assert_eq!(ClientId::new(u16::MAX).raw(), u16::MAX);
    assert_eq!(TransactionId::new(u32::MAX).raw(), u32::MAX);
}

#[test]
fn transactions_give_back_what_they_were_made_of() {
    let deposit = stored(3, 11, 125);
    assert_eq!(deposit.client_id(), ClientId::new(3));
    assert_eq!(deposit.transaction_id(), TransactionId::new(11));
    assert_eq!(deposit.amount(), Amount::from_units(125));
    assert_eq!(deposit.dispute, DisputeState::Undisputed);
    assert_eq!(deposit.dispute_state(), DisputeState::Undisputed);

    let withdrawal = Withdrawal::new(ClientId::new(4), TransactionId::new(12), Amount::from_units(9));
    assert_eq!(withdrawal.client_id(), ClientId::new(4));
    assert_eq!(withdrawal.transaction_id(), TransactionId::new(12));
    assert_eq!(withdrawal.amount(), Amount::from_units(9));

    let dispute = Dispute::new(ClientId::new(5), TransactionId::new(13));
    assert_eq!(dispute.client_id(), ClientId::new(5));
    assert_eq!(dispute.disputed_tx_id(), TransactionId::new(13));

    let resolve = Resolve::new(ClientId::new(6), TransactionId::new(14));
    assert_eq!(resolve.client_id(), ClientId::new(6));
    assert_eq!(resolve.disputed_tx_id(), TransactionId::new(14));

    let chargeback = Chargeback::new(ClientId::new(7), TransactionId::new(15));
    assert_eq!(chargeback.client_id(), ClientId::new(7));
    assert_eq!(chargeback.disputed_tx_id(), TransactionId::new(15));
}

#[test]
fn transactions_wrap_each_kind() {
    let deposit = stored(3, 11, 125);
    assert_eq!(Transaction::from(deposit), Transaction::Deposit(deposit));
    let withdrawal = Withdrawal::new(ClientId::new(4), TransactionId::new(12), Amount::from_units(9));
    assert_eq!(Transaction::from(withdrawal), Transaction::Withdrawal(withdrawal));
    let dispute = Dispute::new(ClientId::new(5), TransactionId::new(13));
    assert_eq!(Transaction::from(dispute), Transaction::Dispute(dispute));
    let resolve = Resolve::new(ClientId::new(6), TransactionId::new(14));
    assert_eq!(Transaction::from(resolve), Transaction::Resolve(resolve));
    let chargeback = Chargeback::new(ClientId::new(7), TransactionId::new(15));
    assert_eq!(Transaction::from(chargeback), Transaction::Chargeback(chargeback));
}

#[test]
fn set_dispute_state_moves_the_state_only() {
    let mut deposit = stored(3, 11, 125);
    deposit.set_dispute_state(DisputeState::Open);
    assert_eq!(deposit.dispute_state(), DisputeState::Open);
    assert_eq!(deposit.client_id(), ClientId::new(3));
    assert_eq!(deposit.transaction_id(), TransactionId::new(11));
    assert_eq!(deposit.amount(), Amount::from_units(125));
    deposit.set_dispute_state(DisputeState::ChargedBack);
    assert_eq!(deposit.dispute_state(), DisputeState::ChargedBack);
}

#[test]
fn history_finds_a_deposit_for_its_client_only() {
    let mut history = DepositHistory::new();
    history.add_deposit(stored(1, 10, 500));
    let tx = TransactionId::new(10);
    assert_eq!(history.get_deposit(&tx, &ClientId::new(1)), Some(&stored(1, 10, 500)));
    assert_eq!(history.get_deposit(&tx, &ClientId::new(2)), None);
    assert_eq!(history.get_deposit(&TransactionId::new(11), &ClientId::new(1)), None);
    let empty = DepositHistory::default();
    assert_eq!(empty.get_deposit(&tx, &ClientId::new(1)), None);
}

#[test]
fn history_stores_a_deposit_as_undisputed() {
    let mut history = DepositHistory::new();
    let mut open = stored(1, 10, 500);
    open.dispute = DisputeState::Open;
    history.add_deposit(open);
    let tx = TransactionId::new(10);
    let client = ClientId::new(1);
    assert_eq!(history.get_deposit(&tx, &client), Some(&stored(1, 10, 500)));
    assert_eq!(history.get_deposit_undisputed(&tx, &client), Some(&stored(1, 10, 500)));
    assert_eq!(history.get_deposit_under_dispute(&tx, &client), None);
}

#[test]
fn history_replaces_a_deposit_under_the_same_id() {
    let mut history = DepositHistory::new();
    history.add_deposit(stored(1, 10, 500));
    history.add_deposit(stored(2, 10, 7));
    let tx = TransactionId::new(10);
    assert_eq!(history.get_deposit(&tx, &ClientId::new(1)), None);
    assert_eq!(history.get_deposit(&tx, &ClientId::new(2)), Some(&stored(2, 10, 7)));
}

#[test]
fn history_filters_by_dispute_state() {
    let mut history = DepositHistory::new();
    history.add_deposit(stored(1, 10, 500));
    let tx = TransactionId::new(10);
    let client = ClientId::new(1);
    let other = ClientId::new(2);

    assert!(history.get_deposit_under_dispute_mut(&tx, &client).is_none());
    assert!(history.get_deposit_undisputed_mut(&tx, &other).is_none());
    assert!(history.get_deposit_undisputed(&tx, &other).is_none());
    assert!(history.get_deposit_undisputed_mut(&TransactionId::new(11), &client).is_none());

    let found = history.get_deposit_undisputed_mut(&tx, &client).unwrap();
    assert_eq!(*found, stored(1, 10, 500));
    found.set_dispute_state(DisputeState::Open);

    assert!(history.get_deposit_undisputed(&tx, &client).is_none());
    assert!(history.get_deposit_undisputed_mut(&tx, &client).is_none());
    assert!(history.get_deposit_under_dispute(&tx, &other).is_none());
    assert!(history.get_deposit_under_dispute_mut(&tx, &other).is_none());
    assert_eq!(
        history.get_deposit_under_dispute(&tx, &client).unwrap().dispute_state(),
        DisputeState::Open
    );

    let found = history.get_deposit_under_dispute_mut(&tx, &client).unwrap();
    assert_eq!(found.amount(), Amount::from_units(500));
    found.set_dispute_state(DisputeState::ChargedBack);

    assert!(history.get_deposit_undisputed(&tx, &client).is_none());
    assert!(history.get_deposit_under_dispute(&tx, &client).is_none());
    assert_eq!(
        history.get_deposit(&tx, &client).unwrap().dispute_state(),
        DisputeState::ChargedBack
    );
}

#[test]
fn accounts_are_made_on_first_use() {
    let mut accounts = ClientAccounts::new();
    assert!(accounts.as_map().is_empty());
    assert_eq!(accounts.account(ClientId::new(1)), Account::default());
    assert!(accounts.as_map().is_empty());

    assert_eq!(*accounts.get_or_create_account(ClientId::new(1)), Account::default());
    assert_eq!(accounts.as_map().len(), 1);

    let account = accounts.get_or_create_account_mut(ClientId::new(2));
    assert_eq!(*account, Account::default());
    account.balance.add(Amount::from_units(5));
    account.locked = true;
    assert_eq!(accounts.as_map().len(), 2);

    let expected =
        Account { balance: Balance::new(Amount::from_units(5), Amount::zero()), locked: true };
    assert_eq!(*accounts.get_or_create_account(ClientId::new(2)), expected);
    assert_eq!(*accounts.get_or_create_account_mut(ClientId::new(2)), expected);
    assert_eq!(accounts.account(ClientId::new(2)), expected);
    assert_eq!(accounts.as_map().len(), 2);
    assert_eq!(accounts.as_map().get(&1), Some(&Account::default()));
    assert!(ClientAccounts::default().as_map().is_empty());
}
