//! The two stores of the engine: deposits by transaction id, accounts by
//! client id.

use crate::domain::{
    Account, AccountModel, ClientId, Deposit, DepositModel, DisputeState, TransactionId,
};
use std::collections::hash_map::Entry;
use std::collections::HashMap;
use vstd::prelude::*;

verus! {

broadcast use vstd::std_specs::hash::group_hash_axioms;

/// Maps each client to their account. Accounts are lazily created on first transaction.
///
/// The view is the map from the number of each client that has an account to
/// the view of that account.
#[derive(Debug)]
pub struct ClientAccounts(HashMap<u16, Account>);

impl View for ClientAccounts {
    type V = Map<u16, AccountModel>;

    closed spec fn view(&self) -> Map<u16, AccountModel> {
        account_models(self.0@)
    }
}

/// The views of the accounts in `accounts`, under the same keys.
pub open spec fn account_models(accounts: Map<u16, Account>) -> Map<u16, AccountModel> {
    Map::new(|client: u16| accounts.contains_key(client), |client: u16| accounts[client]@)
}

/// Writing an account into a store writes its view into the store's view.
pub broadcast proof fn lemma_account_models_insert(
    accounts: Map<u16, Account>,
    client: u16,
    account: Account,
)
    ensures
        #[trigger] account_models(accounts.insert(client, account)) == account_models(
            accounts,
        ).insert(client, account@),
{
    assert(account_models(accounts.insert(client, account)) =~= account_models(accounts).insert(
        client,
        account@,
    ));
}

/// The account that `accounts` has for `client`, and the fresh account where
/// it has none.
pub open spec fn account_or_fresh(accounts: Map<u16, AccountModel>, client: u16) -> AccountModel {
    if accounts.contains_key(client) {
        accounts[client]
    } else {
        AccountModel::fresh()
    }
}

impl ClientAccounts {
    pub fn new() -> (accounts: Self)
        ensures
            accounts@ == Map::<u16, AccountModel>::empty(),
    {
        let accounts = Self(HashMap::new());
        assert(accounts@ =~= Map::<u16, AccountModel>::empty());
        accounts
    }

    /// The accounts by client number.
    pub fn as_map(&self) -> (map: &HashMap<u16, Account>)
        ensures
            account_models(map@) == self@,
    {
        &self.0
    }

    /// The account of `client_id` as it stands, and the fresh account where
    /// the client has none. The store stays as it is.
    pub fn account(&self, client_id: ClientId) -> (account: Account)
        ensures
            account@ == account_or_fresh(self@, client_id@),
    {
        let key: u16 = client_id.raw();
        match self.0.get(&key) {
            Some(account) => *account,
            None => Account::default(),
        }
    }

    /// The account of `client_id`, made fresh if the client had none. What
    /// the caller writes through the reference is what the store then holds
    /// for the client; no other account changes.
    pub fn get_or_create_account_mut(&mut self, client_id: ClientId) -> (account: &mut Account)
        ensures
            account@ == account_or_fresh(old(self)@, client_id@),
            final(self)@ == old(self)@.insert(client_id@, final(account)@),
    {
        broadcast use lemma_account_models_insert;

        self.0.entry(client_id.raw()).or_insert(Account::default())
    }

    /// The account of `client_id`, made fresh if the client had none; no
    /// other account changes.
    pub fn get_or_create_account(&mut self, client_id: ClientId) -> (account: &Account)
        ensures
            account@ == account_or_fresh(old(self)@, client_id@),
            final(self)@ == old(self)@.insert(client_id@, account@),
    {
        broadcast use lemma_account_models_insert;

        self.0.entry(client_id.raw()).or_insert(Account::default())
    }
}

impl Default for ClientAccounts {
    fn default() -> (accounts: Self)
        ensures
            accounts@ == Map::<u16, AccountModel>::empty(),
    {
        Self::new()
    }
}

/// Stores all successfully processed deposits, keyed by transaction ID.
/// Only deposits are stored because they're the only transaction type that can be disputed.
///
/// The view is the map from the number of each stored transaction to the
/// view of the deposit kept under it.
#[derive(Debug)]
pub struct DepositHistory(HashMap<u32, Deposit>);

impl View for DepositHistory {
    type V = Map<u32, DepositModel>;

    closed spec fn view(&self) -> Map<u32, DepositModel> {
        deposit_models(self.0@)
    }
}

/// The views of the deposits in `deposits`, under the same keys.
pub open spec fn deposit_models(deposits: Map<u32, Deposit>) -> Map<u32, DepositModel> {
    Map::new(|tx: u32| deposits.contains_key(tx), |tx: u32| deposits[tx]@)
}

/// Writing a deposit into a store writes its view into the store's view.
pub broadcast proof fn lemma_deposit_models_insert(
    deposits: Map<u32, Deposit>,
    tx: u32,
    deposit: Deposit,
)
    ensures
        #[trigger] deposit_models(deposits.insert(tx, deposit)) == deposit_models(deposits).insert(
            tx,
            deposit@,
        ),
{
    assert(deposit_models(deposits.insert(tx, deposit)) =~= deposit_models(deposits).insert(
        tx,
        deposit@,
    ));
}

/// The deposit that `deposits` holds under `tx` for `client`: none where the
/// id is unknown, and none where the deposit is another client's.
pub open spec fn deposit_of(deposits: Map<u32, DepositModel>, tx: u32, client: u16) -> Option<
    DepositModel,
> {
    if deposits.contains_key(tx) && deposits[tx].client == client {
        Some(deposits[tx])
    } else {
        None
    }
}

/// The deposit that `deposits` holds under `tx` for `client`, if it stands
/// at `state` in the dispute process.
pub open spec fn deposit_in_state(
    deposits: Map<u32, DepositModel>,
    tx: u32,
    client: u16,
    state: DisputeState,
) -> Option<DepositModel> {
    match deposit_of(deposits, tx, client) {
        Some(deposit) if deposit.dispute == state => Some(deposit),
        _ => None,
    }
}

impl DepositHistory {
    pub fn new() -> (history: Self)
        ensures
            history@ == Map::<u32, DepositModel>::empty(),
    {
        let history = Self(HashMap::new());
        assert(history@ =~= Map::<u32, DepositModel>::empty());
        history
    }

    /// Stores `deposit` under its transaction id, with no dispute open on
    /// it. A deposit stored under that id before is replaced.
    pub fn add_deposit(&mut self, deposit: Deposit)
        ensures
            final(self)@ == old(self)@.insert(
                deposit@.tx,
                (DepositModel { dispute: DisputeState::Undisputed, ..deposit@ }),
            ),
    {
        broadcast use lemma_deposit_models_insert;

        let mut stored = deposit;
        stored.set_dispute_state(DisputeState::Undisputed);
        self.0.insert(stored.transaction_id().raw(), stored);
    }

    /// Looks up a deposit by tx ID, but only returns it if it belongs to the given client.
    /// This prevents a client from disputing another client's deposit.
    pub fn get_deposit(&self, tx_id: &TransactionId, client_id: &ClientId) -> (found: Option<
        &Deposit,
    >)
        ensures
            found.is_some() == deposit_of(self@, tx_id@, client_id@).is_some(),
            found.is_some() ==> found.unwrap()@ == deposit_of(self@, tx_id@, client_id@).unwrap(),
    {
        let key: u32 = tx_id.raw();
        match self.0.get(&key) {
            Some(deposit) => {
                if deposit.client_id().raw() == client_id.raw() {
                    Some(deposit)
                } else {
                    None
                }
            },
            None => None,
        }
    }

    /// The deposit of `client_id` under `tx_id`, if no dispute is open on it
    /// and it was not charged back.
    pub fn get_deposit_undisputed(&self, tx_id: &TransactionId, client_id: &ClientId) -> (found:
        Option<&Deposit>)
        ensures
            found.is_some() == deposit_in_state(
                self@,
                tx_id@,
                client_id@,
                DisputeState::Undisputed,
            ).is_some(),
            found.is_some() ==> found.unwrap()@ == self@[tx_id@],
    {
        match self.get_deposit(tx_id, client_id) {
            Some(deposit) if deposit.dispute_state() == DisputeState::Undisputed => Some(deposit),
            _ => None,
        }
    }

    /// The deposit of `client_id` under `tx_id`, if a dispute is open on it.
    pub fn get_deposit_under_dispute(&self, tx_id: &TransactionId, client_id: &ClientId) -> (found:
        Option<&Deposit>)
        ensures
            found.is_some() == deposit_in_state(
                self@,
                tx_id@,
                client_id@,
                DisputeState::Open,
            ).is_some(),
            found.is_some() ==> found.unwrap()@ == self@[tx_id@],
    {
        match self.get_deposit(tx_id, client_id) {
            Some(deposit) if deposit.dispute_state() == DisputeState::Open => Some(deposit),
            _ => None,
        }
    }

    /// The deposit of `client_id` under `tx_id`, if it stands at `state`.
    /// What the caller writes through the reference is what the store then
    /// holds under `tx_id`; where nothing is handed out, the store stays as
    /// it was.
    fn get_deposit_in_state_mut(
        &mut self,
        tx_id: &TransactionId,
        client_id: &ClientId,
        state: DisputeState,
    ) -> (found: Option<&mut Deposit>)
        ensures
            found.is_some() == deposit_in_state(old(self)@, tx_id@, client_id@, state).is_some(),
            found.is_some() ==> found.unwrap()@ == old(self)@[tx_id@] && final(self)@ == old(
                self,
            )@.insert(tx_id@, final(found.unwrap())@),
            found.is_none() ==> final(self)@ == old(self)@,
    {
        broadcast use lemma_deposit_models_insert;

        match self.0.entry(tx_id.raw()) {
            Entry::Occupied(occupied) => {
                let deposit = occupied.into_mut();
                if deposit.client_id().raw() == client_id.raw() && deposit.dispute_state()
                    == state {
                    Some(deposit)
                } else {
                    None
                }
            },
            Entry::Vacant(_) => None,
        }
    }

    /// The deposit of `client_id` under `tx_id`, if a dispute is open on it.
    /// What the caller writes through the reference is what the store then
    /// holds under `tx_id`; where nothing is handed out, the store stays as
    /// it was.
    pub fn get_deposit_under_dispute_mut(
        &mut self,
        tx_id: &TransactionId,
        client_id: &ClientId,
    ) -> (found: Option<&mut Deposit>)
        ensures
            found.is_some() == deposit_in_state(
                old(self)@,
                tx_id@,
                client_id@,
                DisputeState::Open,
            ).is_some(),
            found.is_some() ==> found.unwrap()@ == old(self)@[tx_id@] && final(self)@ == old(
                self,
            )@.insert(tx_id@, final(found.unwrap())@),
            found.is_none() ==> final(self)@ == old(self)@,
    {
        self.get_deposit_in_state_mut(tx_id, client_id, DisputeState::Open)
    }

    /// The deposit of `client_id` under `tx_id`, if no dispute is open on it
    /// and it was not charged back. What the caller writes through the
    /// reference is what the store then holds under `tx_id`; where nothing
    /// is handed out, the store stays as it was.
    pub fn get_deposit_undisputed_mut(
        &mut self,
        tx_id: &TransactionId,
        client_id: &ClientId,
    ) -> (found: Option<&mut Deposit>)
        ensures
            found.is_some() == deposit_in_state(
                old(self)@,
                tx_id@,
                client_id@,
                DisputeState::Undisputed,
            ).is_some(),
            found.is_some() ==> found.unwrap()@ == old(self)@[tx_id@] && final(self)@ == old(
                self,
            )@.insert(tx_id@, final(found.unwrap())@),
            found.is_none() ==> final(self)@ == old(self)@,
    {
        self.get_deposit_in_state_mut(tx_id, client_id, DisputeState::Undisputed)
    }
}

impl Default for DepositHistory {
    fn default() -> (history: Self)
        ensures
            history@ == Map::<u32, DepositModel>::empty(),
    {
        Self::new()
    }
}

} // verus!
