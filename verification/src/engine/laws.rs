//! What holds of every state and every transaction: consequences of the
//! engine's rules, each proved from them.

use crate::domain::{DepositModel, DisputeState, ReferenceModel, TransactionModel};
use crate::engine::errors::EngineError;
use crate::engine::rules::EngineModel;
use crate::engine::types::deposit_in_state;
use vstd::prelude::*;

verus! {

/// By how much `transaction` changes the total funds of `client`: a deposit
/// adds its amount, a withdrawal and a chargeback take theirs away, and
/// nothing else changes a total.
pub open spec fn net_change(state: EngineModel, transaction: TransactionModel, client: u16) -> int {
    if state.outcome(transaction).is_ok() && transaction.client() == client {
        match transaction {
            TransactionModel::Deposit(deposit) => deposit.amount,
            TransactionModel::Withdrawal(withdrawal) => -withdrawal.amount,
            TransactionModel::Chargeback(reference) => -state.deposits[reference.tx].amount,
            _ => 0,
        }
    } else {
        0
    }
}

/// The state after `transaction` was applied `times` times in a row.
pub open spec fn repeated(state: EngineModel, transaction: TransactionModel, times: nat) -> EngineModel
    decreases times,
{
    if times == 0 {
        state
    } else {
        repeated(state, transaction, (times - 1) as nat).apply(transaction)
    }
}

/// The total of an account is its available and its held funds together, and
/// it moves only by what came in and went out: holding and releasing funds
/// leave it as it is.
pub proof fn lemma_total_follows_credits_and_debits(
    state: EngineModel,
    transaction: TransactionModel,
    client: u16,
)
    ensures
        state.apply(transaction).account(client).balance.total() == state.apply(
            transaction,
        ).account(client).balance.available + state.apply(transaction).account(
            client,
        ).balance.held,
        state.apply(transaction).account(client).balance.total() == state.account(
            client,
        ).balance.total() + net_change(state, transaction, client),
{
}

/// An account that is locked stays locked, whatever is applied.
pub proof fn lemma_locked_stays_locked(
    state: EngineModel,
    transaction: TransactionModel,
    client: u16,
)
    requires
        state.account(client).locked,
    ensures
        state.apply(transaction).account(client).locked,
{
}

/// An account that is locked stays locked through any sequence of
/// transactions.
pub proof fn lemma_locked_stays_locked_throughout(
    state: EngineModel,
    transactions: Seq<TransactionModel>,
    client: u16,
)
    requires
        state.account(client).locked,
    ensures
        state.apply_all(transactions).account(client).locked,
    decreases transactions.len(),
{
    if transactions.len() > 0 {
        lemma_locked_stays_locked_throughout(state, transactions.drop_last(), client);
        lemma_locked_stays_locked(
            state.apply_all(transactions.drop_last()),
            transactions.last(),
            client,
        );
    }
}

/// An account becomes locked by an accepted chargeback of its client, and
/// by nothing else.
pub proof fn lemma_only_chargeback_locks(
    state: EngineModel,
    transaction: TransactionModel,
    client: u16,
)
    ensures
        state.apply(transaction).account(client).locked == (state.account(client).locked || (
            transaction is Chargeback && transaction.client() == client && state.outcome(
                transaction,
            ).is_ok())),
{
}

/// A deposit or withdrawal on a locked account is refused as such, and
/// leaves every balance and every deposit as it was.
pub proof fn lemma_locked_account_refuses_movements(
    state: EngineModel,
    transaction: TransactionModel,
    client: u16,
)
    requires
        transaction is Deposit || transaction is Withdrawal,
        state.account(transaction.client()).locked,
    ensures
        state.outcome(transaction) == Err::<(), EngineError>(EngineError::AccountLocked),
        state.apply(transaction).account(client) == state.account(client),
        state.apply(transaction).deposits == state.deposits,
{
}

/// A refused transaction changes no account and no deposit: all it leaves
/// behind is the account that it opened, without funds.
pub proof fn lemma_refused_changes_nothing(
    state: EngineModel,
    transaction: TransactionModel,
    client: u16,
)
    requires
        state.outcome(transaction).is_err(),
    ensures
        state.apply(transaction) == state.opened(transaction.client()),
        state.apply(transaction).account(client) == state.account(client),
        state.apply(transaction).deposits == state.deposits,
{
}

/// A dispute is accepted exactly where the client has the referenced deposit
/// and no dispute was opened on it that was not resolved. It then moves the
/// deposit's amount from available to held, leaves the total as it was, and
/// opens the dispute.
pub proof fn lemma_dispute(state: EngineModel, reference: ReferenceModel)
    ensures
        state.outcome(TransactionModel::Dispute(reference)).is_ok() == deposit_in_state(
            state.deposits,
            reference.tx,
            reference.client,
            DisputeState::Undisputed,
        ).is_some(),
        state.outcome(TransactionModel::Dispute(reference)).is_ok() ==> {
            let amount = state.deposits[reference.tx].amount;
            let before = state.account(reference.client);
            let after = state.apply(TransactionModel::Dispute(reference));
            &&& after.account(reference.client).balance.held == before.balance.held + amount
            &&& after.account(reference.client).balance.available == before.balance.available
                - amount
            &&& after.account(reference.client).balance.total() == before.balance.total()
            &&& after.account(reference.client).locked == before.locked
            &&& after.deposits[reference.tx] == (DepositModel {
                dispute: DisputeState::Open,
                ..state.deposits[reference.tx]
            })
        },
{
}

/// A resolve is accepted exactly where the client has the referenced deposit
/// under dispute. It then moves the deposit's amount from held back to
/// available and closes the dispute; a refused resolve changes no account
/// and no deposit.
pub proof fn lemma_resolve(state: EngineModel, reference: ReferenceModel, client: u16)
    ensures
        state.outcome(TransactionModel::Resolve(reference)).is_ok() == deposit_in_state(
            state.deposits,
            reference.tx,
            reference.client,
            DisputeState::Open,
        ).is_some(),
        state.outcome(TransactionModel::Resolve(reference)).is_ok() ==> {
            let amount = state.deposits[reference.tx].amount;
            let before = state.account(reference.client);
            let after = state.apply(TransactionModel::Resolve(reference));
            &&& after.account(reference.client).balance.held == before.balance.held - amount
            &&& after.account(reference.client).balance.available == before.balance.available
                + amount
            &&& after.account(reference.client).balance.total() == before.balance.total()
            &&& after.account(reference.client).locked == before.locked
            &&& after.deposits[reference.tx] == (DepositModel {
                dispute: DisputeState::Undisputed,
                ..state.deposits[reference.tx]
            })
        },
        state.outcome(TransactionModel::Resolve(reference)).is_err() ==> {
            let after = state.apply(TransactionModel::Resolve(reference));
            after.account(client) == state.account(client) && after.deposits == state.deposits
        },
{
}

/// A chargeback is accepted exactly where the client has the referenced
/// deposit under dispute. It then takes the deposit's amount out of the held
/// funds and out of the total, leaves the available funds as they were,
/// locks the account and ends the dispute for good; a refused chargeback
/// changes no account and no deposit.
pub proof fn lemma_chargeback(state: EngineModel, reference: ReferenceModel, client: u16)
    ensures
        state.outcome(TransactionModel::Chargeback(reference)).is_ok() == deposit_in_state(
            state.deposits,
            reference.tx,
            reference.client,
            DisputeState::Open,
        ).is_some(),
        state.outcome(TransactionModel::Chargeback(reference)).is_ok() ==> {
            let amount = state.deposits[reference.tx].amount;
            let before = state.account(reference.client);
            let after = state.apply(TransactionModel::Chargeback(reference));
            &&& after.account(reference.client).balance.held == before.balance.held - amount
            &&& after.account(reference.client).balance.available == before.balance.available
            &&& after.account(reference.client).balance.total() == before.balance.total()
                - amount
            &&& after.account(reference.client).locked
            &&& after.deposits[reference.tx] == (DepositModel {
                dispute: DisputeState::ChargedBack,
                ..state.deposits[reference.tx]
            })
        },
        state.outcome(TransactionModel::Chargeback(reference)).is_err() ==> {
            let after = state.apply(TransactionModel::Chargeback(reference));
            after.account(client) == state.account(client) && after.deposits == state.deposits
        },
{
}

/// A dispute followed by the resolve of the same deposit for the same client
/// restores what was there before the dispute: every account and every
/// deposit. All that stays is the account that the two have opened, if the
/// client had none. Where the client has no such deposit, or the deposit
/// was charged back, both are refused and the same holds.
///
/// It does not hold where the deposit was under dispute already: the
/// dispute is then refused and the resolve releases the funds.
pub proof fn lemma_dispute_then_resolve_restores(
    state: EngineModel,
    reference: ReferenceModel,
    client: u16,
)
    requires
        deposit_in_state(
            state.deposits,
            reference.tx,
            reference.client,
            DisputeState::Open,
        ).is_none(),
    ensures
        ({
            let dispute = TransactionModel::Dispute(reference);
            let resolve = TransactionModel::Resolve(reference);
            let disputed = state.apply(dispute);
            let resolved = disputed.apply(resolve);
            &&& state.outcome(dispute).is_ok() ==> disputed.outcome(resolve).is_ok()
            &&& resolved.account(client) == state.account(client)
            &&& resolved.deposits == state.deposits
            &&& resolved == state.opened(reference.client)
        }),
{
    let dispute = TransactionModel::Dispute(reference);
    let resolve = TransactionModel::Resolve(reference);
    let resolved = state.apply(dispute).apply(resolve);
    assert(resolved.deposits =~= state.deposits);
    assert(resolved.accounts =~= state.opened(reference.client).accounts);
}

/// A transaction that is refused is refused again however often it is
/// repeated, and the state after any number of repetitions is the state
/// after the first: no balance and no deposit ever changes.
pub proof fn lemma_refusal_repeats(
    state: EngineModel,
    transaction: TransactionModel,
    times: nat,
    client: u16,
)
    requires
        state.outcome(transaction).is_err(),
        times >= 1,
    ensures
        repeated(state, transaction, times).outcome(transaction) == state.outcome(transaction),
        repeated(state, transaction, times) == state.apply(transaction),
        repeated(state, transaction, times).account(client) == state.account(client),
        repeated(state, transaction, times).deposits == state.deposits,
    decreases times,
{
    let once = state.apply(transaction);
    assert(once.opened(transaction.client()).accounts =~= once.accounts);
    if times == 1 {
        assert(repeated(state, transaction, 0) == state);
    } else {
        lemma_refusal_repeats(state, transaction, (times - 1) as nat, client);
    }
}

/// A deposit that was charged back stays so: no dispute, resolve or
/// chargeback moves it again. Only a new deposit under the same id takes its
/// place.
pub proof fn lemma_charged_back_is_final(
    state: EngineModel,
    transaction: TransactionModel,
    tx: u32,
)
    requires
        state.deposits.contains_key(tx),
        state.deposits[tx].dispute == DisputeState::ChargedBack,
        !(transaction is Deposit && transaction->Deposit_0.tx == tx),
    ensures
        state.apply(transaction).deposits.contains_key(tx),
        state.apply(transaction).deposits[tx] == state.deposits[tx],
{
}

/// The dispute process of a stored deposit has three moves and no other: a
/// dispute opens it, a resolve closes it again, a chargeback ends it. Only a
/// new deposit under the same id takes the place of a stored one.
pub proof fn lemma_dispute_state_moves(state: EngineModel, transaction: TransactionModel, tx: u32)
    requires
        state.deposits.contains_key(tx),
        !(transaction is Deposit && transaction->Deposit_0.tx == tx),
    ensures
        state.apply(transaction).deposits.contains_key(tx),
        ({
            let before = state.deposits[tx];
            let after = state.apply(transaction).deposits[tx];
            &&& after == (DepositModel { dispute: after.dispute, ..before })
            &&& {
                ||| after.dispute == before.dispute
                ||| transaction is Dispute && before.dispute == DisputeState::Undisputed
                    && after.dispute == DisputeState::Open
                ||| transaction is Resolve && before.dispute == DisputeState::Open && after.dispute
                    == DisputeState::Undisputed
                ||| transaction is Chargeback && before.dispute == DisputeState::Open
                    && after.dispute == DisputeState::ChargedBack
            }
        }),
{
}

/// Deposits are the only transactions that are stored, each under its own id
/// and with no dispute open on it; a refused deposit is not stored.
pub proof fn lemma_only_deposits_are_stored(state: EngineModel, transaction: TransactionModel)
    ensures
        state.apply(transaction).deposits.dom() == if transaction is Deposit && state.outcome(
            transaction,
        ).is_ok() {
            state.deposits.dom().insert(transaction->Deposit_0.tx)
        } else {
            state.deposits.dom()
        },
        transaction is Deposit && state.outcome(transaction).is_ok() ==> state.apply(
            transaction,
        ).deposits[transaction->Deposit_0.tx] == (DepositModel {
            dispute: DisputeState::Undisputed,
            ..transaction->Deposit_0
        }),
{
    let after = state.apply(transaction).deposits.dom();
    if transaction is Deposit && state.outcome(transaction).is_ok() {
        assert(after =~= state.deposits.dom().insert(transaction->Deposit_0.tx));
    } else {
        assert(after =~= state.deposits.dom());
    }
}

/// Every transaction opens the account of its client and no other, and no
/// account is ever removed.
pub proof fn lemma_accounts_are_opened_never_removed(
    state: EngineModel,
    transaction: TransactionModel,
)
    ensures
        state.apply(transaction).accounts.dom() == state.accounts.dom().insert(
            transaction.client(),
        ),
{
    assert(state.apply(transaction).accounts.dom() =~= state.accounts.dom().insert(
        transaction.client(),
    ));
}

/// Opening an account that is open changes nothing: the client keeps the
/// account that it has.
pub proof fn lemma_opening_twice_is_opening_once(state: EngineModel, client: u16)
    ensures
        state.opened(client).opened(client) == state.opened(client),
        state.opened(client).account(client) == state.account(client),
        state.accounts.contains_key(client) ==> state.opened(client) == state,
{
    assert(state.opened(client).opened(client).accounts =~= state.opened(client).accounts);
    if state.accounts.contains_key(client) {
        assert(state.opened(client).accounts =~= state.accounts);
    }
}

/// By how much the transactions of `transactions`, applied in order, change
/// the total funds of `client`.
pub open spec fn net_change_all(
    state: EngineModel,
    transactions: Seq<TransactionModel>,
    client: u16,
) -> int
    decreases transactions.len(),
{
    if transactions.len() == 0 {
        0
    } else {
        net_change_all(state, transactions.drop_last(), client) + net_change(
            state.apply_all(transactions.drop_last()),
            transactions.last(),
            client,
        )
    }
}

/// At every point the total of an account is what it was at the start and
/// all that was credited since, less all that was debited: however often
/// funds were held and released in between.
pub proof fn lemma_total_is_sum_of_credits_and_debits(
    state: EngineModel,
    transactions: Seq<TransactionModel>,
    client: u16,
)
    ensures
        state.apply_all(transactions).account(client).balance.total() == state.account(
            client,
        ).balance.total() + net_change_all(state, transactions, client),
    decreases transactions.len(),
{
    if transactions.len() > 0 {
        lemma_total_is_sum_of_credits_and_debits(state, transactions.drop_last(), client);
        lemma_total_follows_credits_and_debits(
            state.apply_all(transactions.drop_last()),
            transactions.last(),
            client,
        );
    }
}

} // verus!
