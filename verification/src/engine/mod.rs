//! Stateful payments engine.
//!
//! Processes a stream of transactions and maintains per-client account balances
//! and a history of deposits (needed for dispute lookups), each deposit with
//! the state of its dispute.

pub mod errors;
pub mod laws;
pub mod rules;
mod types;

pub use types::{
    account_models, account_or_fresh, deposit_in_state, deposit_models, deposit_of, ClientAccounts,
    DepositHistory,
};

use crate::domain::{
    Account, Chargeback, ClientId, Deposit, Dispute, DisputeState, Resolve, Transaction,
    TransactionId, TransactionModel, Withdrawal,
};
use crate::engine::errors::EngineError;
use crate::engine::rules::EngineModel;
use vstd::prelude::*;

verus! {

/// The engine: the accounts of all clients, and the deposits that disputes
/// can refer to.
pub struct PaymentsEngine {
    client_accounts: ClientAccounts,
    /// Only deposits are stored - they're the only transaction type that can be disputed.
    deposit_history: DepositHistory,
}

impl View for PaymentsEngine {
    type V = EngineModel;

    closed spec fn view(&self) -> EngineModel {
        EngineModel { accounts: self.client_accounts@, deposits: self.deposit_history@ }
    }
}

/// The views of the transactions of `transactions`, in order.
pub open spec fn transaction_models(transactions: Seq<Transaction>) -> Seq<TransactionModel> {
    Seq::new(transactions.len(), |i: int| transactions[i]@)
}

/// Guard: deposits and withdrawals are rejected on a locked (frozen) account.
pub fn check_account_eligibility(account: &Account) -> (outcome: Result<(), EngineError>)
    ensures
        outcome == if account@.locked {
            Err::<(), EngineError>(EngineError::AccountLocked)
        } else {
            Ok::<(), EngineError>(())
        },
{
    if account.locked {
        return Err(EngineError::AccountLocked);
    }
    Ok(())
}

impl PaymentsEngine {
    /// An engine without accounts and without deposits.
    pub fn new() -> (engine: Self)
        ensures
            engine@ == EngineModel::empty(),
    {
        Self { client_accounts: ClientAccounts::new(), deposit_history: DepositHistory::new() }
    }

    /// The accounts as they stand.
    pub fn client_accounts(&self) -> (accounts: &ClientAccounts)
        ensures
            accounts@ == self@.accounts,
    {
        &self.client_accounts
    }

    /// Whether `transaction` fits: whether every sum that it makes the
    /// engine compute can be held by an amount. Nothing changes.
    pub fn can_process(&self, transaction: &Transaction) -> (fits: bool)
        ensures
            fits == self@.fits(transaction@),
    {
        match transaction {
            Transaction::Deposit(deposit) => {
                let account = self.client_accounts.account(deposit.client_id());
                account.locked || account.balance.available().checked_add(
                    deposit.amount(),
                ).is_some()
            },
            Transaction::Withdrawal(withdrawal) => {
                let account = self.client_accounts.account(withdrawal.client_id());
                let available = account.balance.available();
                account.locked || !available.is_at_least(withdrawal.amount())
                    || available.checked_sub(withdrawal.amount()).is_some()
            },
            Transaction::Dispute(dispute) => {
                let client = dispute.client_id();
                let balance = self.client_accounts.account(client).balance;
                match self.deposit_history.get_deposit_undisputed(
                    &dispute.disputed_tx_id(),
                    &client,
                ) {
                    None => true,
                    Some(deposit) => balance.available().checked_sub(deposit.amount()).is_some()
                        && balance.held().checked_add(deposit.amount()).is_some(),
                }
            },
            Transaction::Resolve(resolve) => self.can_release(
                resolve.client_id(),
                resolve.disputed_tx_id(),
            ),
            Transaction::Chargeback(chargeback) => self.can_release(
                chargeback.client_id(),
                chargeback.disputed_tx_id(),
            ),
        }
    }

    /// Whether the amount of the deposit under `tx`, if `client` has it
    /// under dispute, can be moved from held to available.
    fn can_release(&self, client: ClientId, tx: TransactionId) -> (fits: bool)
        ensures
            fits == match deposit_in_state(self@.deposits, tx@, client@, DisputeState::Open) {
                None => true,
                Some(deposit) => self@.account(client@).balance.release(
                    deposit.amount,
                ).representable(),
            },
    {
        let balance = self.client_accounts.account(client).balance;
        match self.deposit_history.get_deposit_under_dispute(&tx, &client) {
            None => true,
            Some(deposit) => balance.available().checked_add(deposit.amount()).is_some()
                && balance.held().checked_sub(deposit.amount()).is_some(),
        }
    }

    /// Books a deposit: credits the client's account and records the
    /// deposit, unless the account is locked.
    pub fn process_deposit_transaction(&mut self, transaction: Deposit) -> (outcome: Result<
        (),
        EngineError,
    >)
        requires
            old(self)@.fits(TransactionModel::Deposit(transaction@)),
        ensures
            outcome == old(self)@.outcome(TransactionModel::Deposit(transaction@)),
            final(self)@ == old(self)@.apply(TransactionModel::Deposit(transaction@)),
    {
        let account = self.client_accounts.get_or_create_account_mut(transaction.client_id());
        check_account_eligibility(account)?;

        account.balance.add(transaction.amount());
        // Record the deposit so it can be referenced later by disputes.
        self.deposit_history.add_deposit(transaction);

        Ok(())
    }

    /// Books a withdrawal: debits the client's account, unless the account
    /// is locked or the available funds are less than the amount.
    pub fn process_withdrawal_transaction(&mut self, transaction: Withdrawal) -> (outcome: Result<
        (),
        EngineError,
    >)
        requires
            old(self)@.fits(TransactionModel::Withdrawal(transaction@)),
        ensures
            outcome == old(self)@.outcome(TransactionModel::Withdrawal(transaction@)),
            final(self)@ == old(self)@.apply(TransactionModel::Withdrawal(transaction@)),
    {
        let account = self.client_accounts.get_or_create_account_mut(transaction.client_id());
        check_account_eligibility(account)?;

        let amount = transaction.amount();

        match account.balance.try_remove(amount) {
            Ok(()) => Ok(()),
            Err(error) => Err(EngineError::from(error)),
        }
    }

    /// Opens a dispute on a deposit of the client: moves the deposit's
    /// amount from available to held, unless the client has no such deposit
    /// or the deposit is disputed already or charged back.
    pub fn process_dispute_transaction(&mut self, transaction: Dispute) -> (outcome: Result<
        (),
        EngineError,
    >)
        requires
            old(self)@.fits(TransactionModel::Dispute(transaction@)),
        ensures
            outcome == old(self)@.outcome(TransactionModel::Dispute(transaction@)),
            final(self)@ == old(self)@.apply(TransactionModel::Dispute(transaction@)),
    {
        let client = transaction.client_id();
        let tx = transaction.disputed_tx_id();
        let account = self.client_accounts.get_or_create_account_mut(client);

        // Look up the referenced deposit; ignores disputes on non-existent or wrong-client transactions.
        if self.deposit_history.get_deposit(&tx, &client).is_none() {
            return Err(EngineError::TransactionNotFound);
        }
        // Prevent double-disputes on the same transaction.
        match self.deposit_history.get_deposit_undisputed_mut(&tx, &client) {
            None => Err(EngineError::TransactionAlreadyDisputed),
            Some(disputed_tx) => {
                account.balance.hold(disputed_tx.amount());
                disputed_tx.set_dispute_state(DisputeState::Open);
                Ok(())
            },
        }
    }

    /// Settles a dispute in the client's favour: moves the deposit's amount
    /// from held back to available, unless the client has no such deposit
    /// or no dispute is open on it.
    pub fn process_resolve_transaction(&mut self, transaction: Resolve) -> (outcome: Result<
        (),
        EngineError,
    >)
        requires
            old(self)@.fits(TransactionModel::Resolve(transaction@)),
        ensures
            outcome == old(self)@.outcome(TransactionModel::Resolve(transaction@)),
            final(self)@ == old(self)@.apply(TransactionModel::Resolve(transaction@)),
    {
        let client = transaction.client_id();
        let tx = transaction.disputed_tx_id();
        let account = self.client_accounts.get_or_create_account_mut(client);

        if self.deposit_history.get_deposit(&tx, &client).is_none() {
            return Err(EngineError::TransactionNotFound);
        }
        match self.deposit_history.get_deposit_under_dispute_mut(&tx, &client) {
            None => Err(EngineError::TransactionNotDisputed),
            Some(disputed_tx) => {
                account.balance.release(disputed_tx.amount());
                disputed_tx.set_dispute_state(DisputeState::Undisputed);
                Ok(())
            },
        }
    }

    /// Reverses a disputed deposit: takes its amount out of the held funds
    /// and locks the account, unless the client has no such deposit or no
    /// dispute is open on it.
    pub fn process_chargeback_transaction(&mut self, transaction: Chargeback) -> (outcome: Result<
        (),
        EngineError,
    >)
        requires
            old(self)@.fits(TransactionModel::Chargeback(transaction@)),
        ensures
            outcome == old(self)@.outcome(TransactionModel::Chargeback(transaction@)),
            final(self)@ == old(self)@.apply(TransactionModel::Chargeback(transaction@)),
    {
        let client = transaction.client_id();
        let tx = transaction.disputed_tx_id();
        let account = self.client_accounts.get_or_create_account_mut(client);

        if self.deposit_history.get_deposit(&tx, &client).is_none() {
            return Err(EngineError::TransactionNotFound);
        }
        match self.deposit_history.get_deposit_under_dispute_mut(&tx, &client) {
            None => Err(EngineError::TransactionNotDisputed),
            Some(disputed_tx) => {
                proof {
                    account.balance.lemma_representable();
                }
                account.balance.release(disputed_tx.amount());
                account.balance.remove(disputed_tx.amount());
                account.locked = true;
                disputed_tx.set_dispute_state(DisputeState::ChargedBack);
                Ok(())
            },
        }
    }

    /// Applies the transactions in order. A refused transaction is passed
    /// over: it changes no balance and no deposit, and the ones after it are
    /// applied as if it had not been there.
    pub fn process_transactions(&mut self, transactions: Vec<Transaction>)
        requires
            old(self)@.fits_all(transaction_models(transactions@)),
        ensures
            final(self)@ == old(self)@.apply_all(transaction_models(transactions@)),
    {
        let ghost models = transaction_models(transactions@);
        let mut done: usize = 0;
        while done < transactions.len()
            invariant
                done <= transactions.len(),
                models == transaction_models(transactions@),
                old(self)@.fits_all(models),
                self@ == old(self)@.apply_all(models.take(done as int)),
            decreases transactions.len() - done,
        {
            proof {
                old(self)@.lemma_fits_all_prefix(models, done + 1);
                assert(models.take(done + 1).drop_last() =~= models.take(done as int));
            }
            let _ = self.process_transaction(transactions[done]);
            done += 1;
        }
        proof {
            assert(models.take(done as int) =~= models);
        }
    }

    /// Applies one transaction, by the rules of its kind.
    pub fn process_transaction(&mut self, transaction: Transaction) -> (outcome: Result<
        (),
        EngineError,
    >)
        requires
            old(self)@.fits(transaction@),
        ensures
            outcome == old(self)@.outcome(transaction@),
            final(self)@ == old(self)@.apply(transaction@),
    {
        match transaction {
            Transaction::Deposit(deposit) => self.process_deposit_transaction(deposit)?,
            Transaction::Withdrawal(withdrawal) => {
                self.process_withdrawal_transaction(withdrawal)?
            },
            Transaction::Dispute(dispute) => self.process_dispute_transaction(dispute)?,
            Transaction::Resolve(resolve) => self.process_resolve_transaction(resolve)?,
            Transaction::Chargeback(chargeback) => {
                self.process_chargeback_transaction(chargeback)?
            },
        }

        Ok(())
    }
}

impl Default for PaymentsEngine {
    fn default() -> (engine: Self)
        ensures
            engine@ == EngineModel::empty(),
    {
        Self::new()
    }
}

} // verus!
