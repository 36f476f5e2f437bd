//! Why the engine refused a transaction.

use crate::domain::DomainError;
use vstd::prelude::*;
use vstd::std_specs::convert::FromSpecImpl;

verus! {

/// Why a transaction was refused. A refused transaction changes no balance
/// and no deposit.
#[derive(Debug, Clone, Copy, PartialEq, Eq, Structural)]
pub enum EngineError {
    /// A deposit or withdrawal addressed a locked account.
    AccountLocked,
    /// The client has no deposit under the referenced id.
    TransactionNotFound,
    /// The referenced deposit is under dispute, or was charged back.
    TransactionAlreadyDisputed,
    /// The referenced deposit is not under dispute.
    TransactionNotDisputed,
    /// The balance refused the operation.
    DomainError(DomainError),
}

impl EngineError {
    /// The text that describes this error.
    pub open spec fn message_text(self) -> Seq<char> {
        match self {
            EngineError::AccountLocked => "Account is locked"@,
            EngineError::TransactionNotFound => "Transaction not found"@,
            EngineError::TransactionAlreadyDisputed => "Transaction already disputed"@,
            EngineError::TransactionNotDisputed => "Transaction not disputed"@,
            EngineError::DomainError(DomainError::InsufficientFunds) =>
                "Domain error: Insufficient funds"@,
        }
    }

    /// A description of this error, for a log or a report.
    pub fn message(&self) -> (text: String)
        ensures
            text@ == self.message_text(),
    {
        match self {
            EngineError::AccountLocked => "Account is locked".to_owned(),
            EngineError::TransactionNotFound => "Transaction not found".to_owned(),
            EngineError::TransactionAlreadyDisputed => "Transaction already disputed".to_owned(),
            EngineError::TransactionNotDisputed => "Transaction not disputed".to_owned(),
            EngineError::DomainError(DomainError::InsufficientFunds) =>
                "Domain error: Insufficient funds".to_owned(),
        }
    }
}

impl From<DomainError> for EngineError {
    fn from(error: DomainError) -> (wrapped: EngineError) {
        EngineError::DomainError(error)
    }
}

impl FromSpecImpl<DomainError> for EngineError {
    open spec fn obeys_from_spec() -> bool {
        true
    }

    open spec fn from_spec(error: DomainError) -> EngineError {
        EngineError::DomainError(error)
    }
}

} // verus!
