//! What the engine does, stated on plain values: the state as two maps, and
//! for each transaction whether it is accepted and what the state is
//! afterwards.

use crate::amount::representable;
use crate::domain::{
    AccountModel, DepositModel, DisputeState, DomainError, ReferenceModel, TransactionModel,
};
use crate::engine::errors::EngineError;
use crate::engine::types::{account_or_fresh, deposit_of};
use vstd::prelude::*;

verus! {

/// View of an engine: the account of each client that has one, and every
/// deposit that was accepted, by transaction id.
pub ghost struct EngineModel {
    pub accounts: Map<u16, AccountModel>,
    pub deposits: Map<u32, DepositModel>,
}

/// The state that `required` asks of a deposit: a dispute starts on a deposit
/// that is undisputed, a resolve or chargeback ends one that is open.
pub open spec fn referenced_outcome(
    deposits: Map<u32, DepositModel>,
    reference: ReferenceModel,
    required: DisputeState,
) -> Result<(), EngineError> {
    match deposit_of(deposits, reference.tx, reference.client) {
        None => Err(EngineError::TransactionNotFound),
        Some(deposit) => if deposit.dispute == required {
            Ok(())
        } else if required == DisputeState::Undisputed {
            Err(EngineError::TransactionAlreadyDisputed)
        } else {
            Err(EngineError::TransactionNotDisputed)
        },
    }
}

impl EngineModel {
    /// The engine before any transaction: no account, no deposit.
    pub open spec fn empty() -> EngineModel {
        EngineModel { accounts: Map::empty(), deposits: Map::empty() }
    }

    /// The account of `client`; the fresh account where the client has none.
    pub open spec fn account(self, client: u16) -> AccountModel {
        account_or_fresh(self.accounts, client)
    }

    /// This state with `account` as the account of `client`.
    pub open spec fn with_account(self, client: u16, account: AccountModel) -> EngineModel {
        EngineModel { accounts: self.accounts.insert(client, account), deposits: self.deposits }
    }

    /// This state with `deposit` stored under its id.
    pub open spec fn with_deposit(self, deposit: DepositModel) -> EngineModel {
        EngineModel { accounts: self.accounts, deposits: self.deposits.insert(deposit.tx, deposit) }
    }

    /// This state with the deposit under `tx` moved to `state`.
    pub open spec fn with_dispute_state(self, tx: u32, state: DisputeState) -> EngineModel {
        EngineModel {
            accounts: self.accounts,
            deposits: self.deposits.insert(
                tx,
                DepositModel { dispute: state, ..self.deposits[tx] },
            ),
        }
    }

    /// This state once `client` has an account: every transaction opens the
    /// account it addresses, accepted or not.
    pub open spec fn opened(self, client: u16) -> EngineModel {
        self.with_account(client, self.account(client))
    }

    /// Whether `transaction` is accepted in this state, and why not.
    ///
    /// A deposit or withdrawal is refused on a locked account; a withdrawal
    /// also where it exceeds the available funds. A dispute, resolve or
    /// chargeback is refused where the client has no deposit under the
    /// referenced id, and where that deposit does not stand where it must:
    /// undisputed for a dispute, under dispute for the other two. A locked
    /// account does not hinder these three.
    pub open spec fn outcome(self, transaction: TransactionModel) -> Result<(), EngineError> {
        match transaction {
            TransactionModel::Deposit(deposit) => if self.account(deposit.client).locked {
                Err(EngineError::AccountLocked)
            } else {
                Ok(())
            },
            TransactionModel::Withdrawal(withdrawal) => {
                let account = self.account(withdrawal.client);
                if account.locked {
                    Err(EngineError::AccountLocked)
                } else if account.balance.available < withdrawal.amount {
                    Err(EngineError::DomainError(DomainError::InsufficientFunds))
                } else {
                    Ok(())
                }
            },
            TransactionModel::Dispute(reference) => referenced_outcome(
                self.deposits,
                reference,
                DisputeState::Undisputed,
            ),
            TransactionModel::Resolve(reference) => referenced_outcome(
                self.deposits,
                reference,
                DisputeState::Open,
            ),
            TransactionModel::Chargeback(reference) => referenced_outcome(
                self.deposits,
                reference,
                DisputeState::Open,
            ),
        }
    }

    /// The state after an accepted `transaction`.
    pub open spec fn accepted(self, transaction: TransactionModel) -> EngineModel {
        let account = self.account(transaction.client());
        match transaction {
            TransactionModel::Deposit(deposit) => self.with_account(
                deposit.client,
                AccountModel { balance: account.balance.credit(deposit.amount), ..account },
            ).with_deposit(DepositModel { dispute: DisputeState::Undisputed, ..deposit }),
            TransactionModel::Withdrawal(withdrawal) => self.with_account(
                withdrawal.client,
                AccountModel { balance: account.balance.debit(withdrawal.amount), ..account },
            ),
            TransactionModel::Dispute(reference) => {
                let deposit = self.deposits[reference.tx];
                self.with_account(
                    reference.client,
                    AccountModel { balance: account.balance.hold(deposit.amount), ..account },
                ).with_dispute_state(reference.tx, DisputeState::Open)
            },
            TransactionModel::Resolve(reference) => {
                let deposit = self.deposits[reference.tx];
                self.with_account(
                    reference.client,
                    AccountModel { balance: account.balance.release(deposit.amount), ..account },
                ).with_dispute_state(reference.tx, DisputeState::Undisputed)
            },
            TransactionModel::Chargeback(reference) => {
                let deposit = self.deposits[reference.tx];
                self.with_account(
                    reference.client,
                    AccountModel {
                        balance: account.balance.release(deposit.amount).debit(deposit.amount),
                        locked: true,
                    },
                ).with_dispute_state(reference.tx, DisputeState::ChargedBack)
            },
        }
    }

    /// The state after `transaction`: as the rules of its kind say where it
    /// is accepted; where it is refused, unchanged but for the account that
    /// it opened.
    pub open spec fn apply(self, transaction: TransactionModel) -> EngineModel {
        if self.outcome(transaction).is_ok() {
            self.accepted(transaction)
        } else {
            self.opened(transaction.client())
        }
    }

    /// Whether every sum that `transaction` makes the engine compute can be
    /// held by an amount. A refused transaction computes none.
    pub open spec fn fits(self, transaction: TransactionModel) -> bool {
        let balance = self.account(transaction.client()).balance;
        self.outcome(transaction).is_ok() ==> match transaction {
            TransactionModel::Deposit(deposit) => representable(
                balance.available + deposit.amount,
            ),
            TransactionModel::Withdrawal(withdrawal) => representable(
                balance.available - withdrawal.amount,
            ),
            TransactionModel::Dispute(reference) => balance.hold(
                self.deposits[reference.tx].amount,
            ).representable(),
            TransactionModel::Resolve(reference) => balance.release(
                self.deposits[reference.tx].amount,
            ).representable(),
            TransactionModel::Chargeback(reference) => balance.release(
                self.deposits[reference.tx].amount,
            ).representable(),
        }
    }

    /// The state after the transactions of `transactions`, applied in order.
    pub open spec fn apply_all(self, transactions: Seq<TransactionModel>) -> EngineModel
        decreases transactions.len(),
    {
        if transactions.len() == 0 {
            self
        } else {
            self.apply_all(transactions.drop_last()).apply(transactions.last())
        }
    }

    /// Whether each of `transactions` fits the state in which it is applied.
    pub open spec fn fits_all(self, transactions: Seq<TransactionModel>) -> bool
        decreases transactions.len(),
    {
        transactions.len() > 0 ==> self.fits_all(transactions.drop_last()) && self.apply_all(
            transactions.drop_last(),
        ).fits(transactions.last())
    }

    /// Where all of `transactions` fit, so do the first `count` of them.
    pub proof fn lemma_fits_all_prefix(self, transactions: Seq<TransactionModel>, count: int)
        requires
            self.fits_all(transactions),
            0 <= count <= transactions.len(),
        ensures
            self.fits_all(transactions.take(count)),
        decreases transactions.len(),
    {
        if count == transactions.len() {
            assert(transactions.take(count) =~= transactions);
        } else {
            self.lemma_fits_all_prefix(transactions.drop_last(), count);
            assert(transactions.drop_last().take(count) =~= transactions.take(count));
        }
    }
}

} // verus!
