//! The final state of the accounts as flat records, one per client.
//!
//! Writing the records is not done here: they go out as plain values, one per
//! column.

use crate::amount::{representable, Amount};
use crate::domain::{Account, AccountModel, ClientId};
use crate::engine::{account_models, ClientAccounts};
use vstd::prelude::*;

verus! {

/// Maps directly to the required output columns: client, available, held, total, locked.
#[derive(Debug, Clone, Copy, PartialEq, Eq, Structural)]
pub struct OutputCsv {
    pub client: ClientId,
    pub available: Amount,
    pub held: Amount,
    pub total: Amount,
    pub locked: bool,
}

/// View of an output record.
pub ghost struct RecordModel {
    pub client: u16,
    pub available: int,
    pub held: int,
    pub total: int,
    pub locked: bool,
}

impl View for OutputCsv {
    type V = RecordModel;

    open spec fn view(&self) -> RecordModel {
        RecordModel {
            client: self.client@,
            available: self.available@,
            held: self.held@,
            total: self.total@,
            locked: self.locked,
        }
    }
}

/// The record that shows `account` as the account of `client`: the two sums
/// of its balance, their total, and its lock.
pub open spec fn record_model(client: u16, account: AccountModel) -> RecordModel {
    RecordModel {
        client,
        available: account.balance.available,
        held: account.balance.held,
        total: account.balance.available + account.balance.held,
        locked: account.locked,
    }
}

/// The records of the accounts of all clients below `bound`, in ascending
/// order of client.
pub open spec fn records_below(accounts: Map<u16, AccountModel>, bound: int) -> Seq<RecordModel>
    decreases bound,
{
    if bound <= 0 {
        Seq::empty()
    } else {
        let client = (bound - 1) as u16;
        let before = records_below(accounts, bound - 1);
        if accounts.contains_key(client) {
            before.push(record_model(client, accounts[client]))
        } else {
            before
        }
    }
}

/// Whether the total of every account can be held by an amount.
pub open spec fn totals_representable(accounts: Map<u16, AccountModel>) -> bool {
    forall|client: u16| #[trigger]
        accounts.contains_key(client) ==> representable(accounts[client].balance.total())
}

/// The views of the records of `records`, in order.
pub open spec fn record_models(records: Seq<OutputCsv>) -> Seq<RecordModel> {
    Seq::new(records.len(), |i: int| records[i]@)
}

/// The record that shows `account` as the account of `client`.
pub fn account_record(client: ClientId, account: &Account) -> (record: OutputCsv)
    requires
        representable(account@.balance.total()),
    ensures
        record@ == record_model(client@, account@),
{
    OutputCsv {
        client,
        available: account.balance.available(),
        held: account.balance.held(),
        total: account.balance.total(),
        locked: account.locked,
    }
}

/// One record for each account, in ascending order of client; `None` where
/// the total of some account cannot be held by an amount.
pub fn account_records(client_accounts: &ClientAccounts) -> (records: Option<Vec<OutputCsv>>)
    ensures
        records.is_some() == totals_representable(client_accounts@),
        records.is_some() ==> record_models(records.unwrap()@) == records_below(
            client_accounts@,
            65_536,
        ),
{
    let accounts = client_accounts.as_map();
    let mut records: Vec<OutputCsv> = Vec::new();
    let mut next: u32 = 0;
    while next < 65_536
        invariant
            next <= 65_536,
            account_models(accounts@) == client_accounts@,
            record_models(records@) == records_below(client_accounts@, next as int),
            forall|client: u16|
                client < next && #[trigger] client_accounts@.contains_key(client)
                    ==> representable(client_accounts@[client].balance.total()),
        decreases 65_536 - next,
    {
        let client: u16 = next as u16;
        match accounts.get(&client) {
            Some(account) => {
                assert(client_accounts@.contains_key(client));
                assert(client_accounts@[client] == account@);
                if account.balance.checked_total().is_none() {
                    return None;
                }
                let record = account_record(ClientId::new(client), account);
                records.push(record);
                assert(record_models(records@) =~= records_below(
                    client_accounts@,
                    next as int,
                ).push(record@));
            },
            None => {
                assert(!client_accounts@.contains_key(client));
            },
        }
        next += 1;
    }
    Some(records)
}

} // verus!
