//! From a flat input record to a typed transaction.
//!
//! Reading the records is not done here: a record comes in as plain values,
//! one per column, and goes out as the transaction it stands for, or as the
//! reason why it stands for none.

use crate::amount::Amount;
use crate::domain::{
    Chargeback, ClientId, Deposit, DepositModel, Dispute, DisputeState, MovementModel,
    ReferenceModel, Resolve, Transaction, TransactionId, TransactionModel, Withdrawal,
};
use vstd::prelude::*;

verus! {

/// The kind of transaction that a record names.
#[derive(Debug, Clone, Copy, Hash, PartialEq, Eq, Structural)]
pub enum TransactionType {
    Deposit,
    Withdrawal,
    Dispute,
    Resolve,
    Chargeback,
}

/// Flat representation of a single input row. `amount` is optional because
/// dispute/resolve/chargeback rows don't carry one.
#[derive(Debug, Clone, Copy, PartialEq, Eq, Structural)]
pub struct CsvTransaction {
    pub kind: TransactionType,
    pub client: ClientId,
    pub tx: TransactionId,
    pub amount: Option<Amount>,
}

/// Why a record stands for no transaction.
#[derive(Debug, Clone, Copy, PartialEq, Eq, Structural)]
pub enum IntoTransactionError {
    /// The record names a deposit and gives no amount.
    MissingAmountForDeposit,
    /// The record names a withdrawal and gives no amount.
    MissingAmountForWithdrawal,
}

impl IntoTransactionError {
    /// The text that describes this error.
    pub open spec fn message_text(self) -> Seq<char> {
        match self {
            IntoTransactionError::MissingAmountForDeposit => "Missing amount for deposit"@,
            IntoTransactionError::MissingAmountForWithdrawal => "Missing amount for withdrawal"@,
        }
    }

    /// A description of this error, for a log or a report.
    pub fn message(&self) -> (text: String)
        ensures
            text@ == self.message_text(),
    {
        match self {
            IntoTransactionError::MissingAmountForDeposit => "Missing amount for deposit".to_owned(),
            IntoTransactionError::MissingAmountForWithdrawal =>
                "Missing amount for withdrawal".to_owned(),
        }
    }
}

impl CsvTransaction {
    /// The transaction that this record stands for, by its view, or the
    /// reason why it stands for none: a deposit or withdrawal needs an
    /// amount; a dispute, resolve or chargeback has no use for one and
    /// passes over it.
    pub open spec fn denoted(self) -> Result<TransactionModel, IntoTransactionError> {
        let reference = ReferenceModel { client: self.client@, tx: self.tx@ };
        match self.kind {
            TransactionType::Deposit => match self.amount {
                Some(amount) => Ok(
                    TransactionModel::Deposit(
                        DepositModel {
                            client: self.client@,
                            tx: self.tx@,
                            amount: amount@,
                            dispute: DisputeState::Undisputed,
                        },
                    ),
                ),
                None => Err(IntoTransactionError::MissingAmountForDeposit),
            },
            TransactionType::Withdrawal => match self.amount {
                Some(amount) => Ok(
                    TransactionModel::Withdrawal(
                        MovementModel { client: self.client@, tx: self.tx@, amount: amount@ },
                    ),
                ),
                None => Err(IntoTransactionError::MissingAmountForWithdrawal),
            },
            TransactionType::Dispute => Ok(TransactionModel::Dispute(reference)),
            TransactionType::Resolve => Ok(TransactionModel::Resolve(reference)),
            TransactionType::Chargeback => Ok(TransactionModel::Chargeback(reference)),
        }
    }
}

impl Transaction {
    /// The transaction that `value` stands for.
    pub fn try_from(value: CsvTransaction) -> (converted: Result<Self, IntoTransactionError>)
        ensures
            match converted {
                Ok(transaction) => value.denoted() == Ok::<TransactionModel, IntoTransactionError>(
                    transaction@,
                ),
                Err(error) => value.denoted() == Err::<TransactionModel, IntoTransactionError>(
                    error,
                ),
            },
    {
        match value.kind {
            TransactionType::Deposit => match value.amount {
                Some(amount) => Ok(Transaction::Deposit(Deposit::new(value.client, value.tx, amount))),
                None => Err(IntoTransactionError::MissingAmountForDeposit),
            },
            TransactionType::Withdrawal => match value.amount {
                Some(amount) => Ok(
                    Transaction::Withdrawal(Withdrawal::new(value.client, value.tx, amount)),
                ),
                None => Err(IntoTransactionError::MissingAmountForWithdrawal),
            },
            TransactionType::Dispute => {
                Ok(Transaction::Dispute(Dispute::new(value.client, value.tx)))
            },
            TransactionType::Resolve => {
                Ok(Transaction::Resolve(Resolve::new(value.client, value.tx)))
            },
            TransactionType::Chargeback => Ok(
                Transaction::Chargeback(Chargeback::new(value.client, value.tx)),
            ),
        }
    }
}

} // verus!
