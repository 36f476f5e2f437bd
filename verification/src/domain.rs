//! Core domain types: identifiers, transactions, balances and accounts.
//!
//! Every type has a view, a plain mathematical value that the contracts of
//! this crate speak of: an integer for an amount, a record of integers for a
//! transaction or a balance.

use crate::amount::{representable, Amount};
use vstd::prelude::*;
use vstd::std_specs::convert::FromSpecImpl;

verus! {

/// Identifier of a client. Its view is the number it wraps.
#[derive(Debug, Clone, Copy, PartialEq, Eq, Hash, Structural)]
pub struct ClientId(u16);

/// Identifier of a transaction, unique among deposits and withdrawals. Its
/// view is the number it wraps.
#[derive(Debug, Clone, Copy, PartialEq, Eq, Hash, Structural)]
pub struct TransactionId(u32);

impl View for ClientId {
    type V = u16;

    closed spec fn view(&self) -> u16 {
        self.0
    }
}

impl View for TransactionId {
    type V = u32;

    closed spec fn view(&self) -> u32 {
        self.0
    }
}

impl ClientId {
    /// The identifier that wraps `raw`.
    pub fn new(raw: u16) -> (id: ClientId)
        ensures
            id@ == raw,
    {
        ClientId(raw)
    }

    /// The number that this identifier wraps.
    pub fn raw(&self) -> (raw: u16)
        ensures
            raw == self@,
    {
        self.0
    }

    /// Two identifiers with one view are one identifier.
    pub proof fn lemma_view_injective(a: ClientId, b: ClientId)
        requires
            a@ == b@,
        ensures
            a == b,
    {
    }
}

impl TransactionId {
    /// The identifier that wraps `raw`.
    pub fn new(raw: u32) -> (id: TransactionId)
        ensures
            id@ == raw,
    {
        TransactionId(raw)
    }

    /// The number that this identifier wraps.
    pub fn raw(&self) -> (raw: u32)
        ensures
            raw == self@,
    {
        self.0
    }

    /// Two identifiers with one view are one identifier.
    pub proof fn lemma_view_injective(a: TransactionId, b: TransactionId)
        requires
            a@ == b@,
        ensures
            a == b,
    {
    }
}

impl From<u16> for ClientId {
    fn from(raw: u16) -> (id: ClientId)
        ensures
            id@ == raw,
    {
        ClientId(raw)
    }
}

impl FromSpecImpl<u16> for ClientId {
    open spec fn obeys_from_spec() -> bool {
        true
    }

    closed spec fn from_spec(raw: u16) -> ClientId {
        ClientId(raw)
    }
}

impl From<ClientId> for u16 {
    fn from(id: ClientId) -> (raw: u16) {
        id.0
    }
}

impl FromSpecImpl<ClientId> for u16 {
    open spec fn obeys_from_spec() -> bool {
        true
    }

    open spec fn from_spec(id: ClientId) -> u16 {
        id@
    }
}

impl From<u32> for TransactionId {
    fn from(raw: u32) -> (id: TransactionId)
        ensures
            id@ == raw,
    {
        TransactionId(raw)
    }
}

impl FromSpecImpl<u32> for TransactionId {
    open spec fn obeys_from_spec() -> bool {
        true
    }

    closed spec fn from_spec(raw: u32) -> TransactionId {
        TransactionId(raw)
    }
}

impl From<TransactionId> for u32 {
    fn from(id: TransactionId) -> (raw: u32) {
        id.0
    }
}

impl FromSpecImpl<TransactionId> for u32 {
    open spec fn obeys_from_spec() -> bool {
        true
    }

    open spec fn from_spec(id: TransactionId) -> u32 {
        id@
    }
}

/// Why an operation on a balance was refused.
#[derive(Debug, Clone, Copy, PartialEq, Eq, Structural)]
pub enum DomainError {
    /// The available funds are less than the amount to take out.
    InsufficientFunds,
}

impl DomainError {
    /// The text that describes this error.
    pub open spec fn message_text(self) -> Seq<char> {
        match self {
            DomainError::InsufficientFunds => "Insufficient funds"@,
        }
    }

    /// A description of this error, for a log or a report.
    pub fn message(&self) -> (text: String)
        ensures
            text@ == self.message_text(),
    {
        match self {
            DomainError::InsufficientFunds => "Insufficient funds".to_owned(),
        }
    }
}

/// Where a stored deposit stands in the dispute process.
#[derive(Debug, PartialEq, Eq, Hash, Clone, Copy, Structural)]
pub enum DisputeState {
    /// No dispute is open for this transaction.
    Undisputed,
    /// A dispute is currently open for this transaction.
    Open,
    /// A dispute was open but has now been charged back.
    ChargedBack,
}

/// View of a deposit: who made it, under which id, how much, and where it
/// stands in the dispute process.
pub ghost struct DepositModel {
    pub client: u16,
    pub tx: u32,
    pub amount: int,
    pub dispute: DisputeState,
}

/// View of a movement of funds, and so of a withdrawal: who made it, under
/// which id, and how much.
pub ghost struct MovementModel {
    pub client: u16,
    pub tx: u32,
    pub amount: int,
}

/// View of a dispute, a resolve or a chargeback: who asks, and which deposit
/// is meant.
pub ghost struct ReferenceModel {
    pub client: u16,
    pub tx: u32,
}

/// View of a transaction.
pub ghost enum TransactionModel {
    Deposit(DepositModel),
    Withdrawal(MovementModel),
    Dispute(ReferenceModel),
    Resolve(ReferenceModel),
    Chargeback(ReferenceModel),
}

impl TransactionModel {
    /// The client whose account the transaction addresses.
    pub open spec fn client(self) -> u16 {
        match self {
            TransactionModel::Deposit(d) => d.client,
            TransactionModel::Withdrawal(w) => w.client,
            TransactionModel::Dispute(r) => r.client,
            TransactionModel::Resolve(r) => r.client,
            TransactionModel::Chargeback(r) => r.client,
        }
    }
}

/// Inner struct shared by Deposit and Withdrawal - transactions that carry an amount.
#[derive(Debug, PartialEq, Eq, Clone, Copy, Structural)]
pub struct MovementTransaction {
    client: ClientId,
    tx: TransactionId,
    amount: Amount,
}

impl View for MovementTransaction {
    type V = MovementModel;

    closed spec fn view(&self) -> MovementModel {
        MovementModel { client: self.client@, tx: self.tx@, amount: self.amount@ }
    }
}

impl MovementTransaction {
    pub fn new(client: ClientId, tx: TransactionId, amount: Amount) -> (movement: Self)
        ensures
            movement@ == (MovementModel { client: client@, tx: tx@, amount: amount@ }),
    {
        Self { client, tx, amount }
    }
}

/// Inner struct shared by Dispute, Resolve, and Chargeback - they reference an existing tx.
#[derive(Debug, PartialEq, Eq, Clone, Copy, Structural)]
pub struct DisputeTransaction {
    client: ClientId,
    disputed_tx: TransactionId,
}

impl View for DisputeTransaction {
    type V = ReferenceModel;

    closed spec fn view(&self) -> ReferenceModel {
        ReferenceModel { client: self.client@, tx: self.disputed_tx@ }
    }
}

impl DisputeTransaction {
    pub fn new(client: ClientId, disputed_tx: TransactionId) -> (reference: Self)
        ensures
            reference@ == (ReferenceModel { client: client@, tx: disputed_tx@ }),
    {
        Self { client, disputed_tx }
    }

    pub fn client_id(&self) -> (client: ClientId)
        ensures
            client@ == self@.client,
    {
        self.client
    }

    pub fn disputed_transaction_id(&self) -> (tx: TransactionId)
        ensures
            tx@ == self@.tx,
    {
        self.disputed_tx
    }
}

/// A credit to a client's account, with the state of its dispute.
#[derive(Debug, PartialEq, Eq, Clone, Copy, Structural)]
pub struct Deposit {
    pub dispute: DisputeState,
    tx: MovementTransaction,
}

/// A debit from a client's account.
#[derive(Debug, PartialEq, Eq, Clone, Copy, Structural)]
pub struct Withdrawal(MovementTransaction);

/// A claim that a deposit was made in error.
#[derive(Debug, PartialEq, Eq, Clone, Copy, Structural)]
pub struct Dispute(DisputeTransaction);

/// The settlement of a dispute in the client's favour.
#[derive(Debug, PartialEq, Eq, Clone, Copy, Structural)]
pub struct Resolve(DisputeTransaction);

/// The reversal of a disputed deposit.
#[derive(Debug, PartialEq, Eq, Clone, Copy, Structural)]
pub struct Chargeback(DisputeTransaction);

impl View for Deposit {
    type V = DepositModel;

    closed spec fn view(&self) -> DepositModel {
        DepositModel {
            client: self.tx@.client,
            tx: self.tx@.tx,
            amount: self.tx@.amount,
            dispute: self.dispute,
        }
    }
}

impl View for Withdrawal {
    type V = MovementModel;

    closed spec fn view(&self) -> MovementModel {
        self.0@
    }
}

impl View for Dispute {
    type V = ReferenceModel;

    closed spec fn view(&self) -> ReferenceModel {
        self.0@
    }
}

impl View for Resolve {
    type V = ReferenceModel;

    closed spec fn view(&self) -> ReferenceModel {
        self.0@
    }
}

impl View for Chargeback {
    type V = ReferenceModel;

    closed spec fn view(&self) -> ReferenceModel {
        self.0@
    }
}

impl Deposit {
    /// A deposit on which no dispute is open.
    pub fn new(client: ClientId, tx: TransactionId, amount: Amount) -> (deposit: Self)
        ensures
            deposit@ == (DepositModel {
                client: client@,
                tx: tx@,
                amount: amount@,
                dispute: DisputeState::Undisputed,
            }),
    {
        Self { tx: MovementTransaction::new(client, tx, amount), dispute: DisputeState::Undisputed }
    }

    pub fn amount(&self) -> (amount: Amount)
        ensures
            amount@ == self@.amount,
    {
        self.tx.amount
    }

    pub fn client_id(&self) -> (client: ClientId)
        ensures
            client@ == self@.client,
    {
        self.tx.client
    }

    pub fn transaction_id(&self) -> (tx: TransactionId)
        ensures
            tx@ == self@.tx,
    {
        self.tx.tx
    }

    /// Where this deposit stands in the dispute process.
    pub fn dispute_state(&self) -> (state: DisputeState)
        ensures
            state == self@.dispute,
    {
        self.dispute
    }

    /// Moves this deposit to `state`; client, id and amount stay.
    pub fn set_dispute_state(&mut self, state: DisputeState)
        ensures
            final(self)@ == (DepositModel { dispute: state, ..old(self)@ }),
    {
        self.dispute = state;
    }
}

impl Withdrawal {
    pub fn new(client: ClientId, tx: TransactionId, amount: Amount) -> (withdrawal: Self)
        ensures
            withdrawal@ == (MovementModel { client: client@, tx: tx@, amount: amount@ }),
    {
        Self(MovementTransaction::new(client, tx, amount))
    }

    pub fn amount(&self) -> (amount: Amount)
        ensures
            amount@ == self@.amount,
    {
        self.0.amount
    }

    pub fn client_id(&self) -> (client: ClientId)
        ensures
            client@ == self@.client,
    {
        self.0.client
    }

    pub fn transaction_id(&self) -> (tx: TransactionId)
        ensures
            tx@ == self@.tx,
    {
        self.0.tx
    }
}

impl Dispute {
    pub fn new(client: ClientId, disputed_tx: TransactionId) -> (dispute: Self)
        ensures
            dispute@ == (ReferenceModel { client: client@, tx: disputed_tx@ }),
    {
        Self(DisputeTransaction::new(client, disputed_tx))
    }

    pub fn client_id(&self) -> (client: ClientId)
        ensures
            client@ == self@.client,
    {
        self.0.client_id()
    }

    pub fn disputed_tx_id(&self) -> (tx: TransactionId)
        ensures
            tx@ == self@.tx,
    {
        self.0.disputed_transaction_id()
    }
}

impl Resolve {
    pub fn new(client: ClientId, disputed_tx: TransactionId) -> (resolve: Self)
        ensures
            resolve@ == (ReferenceModel { client: client@, tx: disputed_tx@ }),
    {
        Self(DisputeTransaction::new(client, disputed_tx))
    }

    pub fn client_id(&self) -> (client: ClientId)
        ensures
            client@ == self@.client,
    {
        self.0.client_id()
    }

    pub fn disputed_tx_id(&self) -> (tx: TransactionId)
        ensures
            tx@ == self@.tx,
    {
        self.0.disputed_transaction_id()
    }
}

impl Chargeback {
    pub fn new(client: ClientId, disputed_tx: TransactionId) -> (chargeback: Self)
        ensures
            chargeback@ == (ReferenceModel { client: client@, tx: disputed_tx@ }),
    {
        Self(DisputeTransaction::new(client, disputed_tx))
    }

    pub fn client_id(&self) -> (client: ClientId)
        ensures
            client@ == self@.client,
    {
        self.0.client_id()
    }

    pub fn disputed_tx_id(&self) -> (tx: TransactionId)
        ensures
            tx@ == self@.tx,
    {
        self.0.disputed_transaction_id()
    }
}

/// Sum type over all transaction kinds the engine can process.
#[derive(Debug, PartialEq, Eq, Clone, Copy, Structural)]
pub enum Transaction {
    Deposit(Deposit),
    Withdrawal(Withdrawal),
    Dispute(Dispute),
    Resolve(Resolve),
    Chargeback(Chargeback),
}

impl View for Transaction {
    type V = TransactionModel;

    open spec fn view(&self) -> TransactionModel {
        match *self {
            Transaction::Deposit(d) => TransactionModel::Deposit(d@),
            Transaction::Withdrawal(w) => TransactionModel::Withdrawal(w@),
            Transaction::Dispute(r) => TransactionModel::Dispute(r@),
            Transaction::Resolve(r) => TransactionModel::Resolve(r@),
            Transaction::Chargeback(r) => TransactionModel::Chargeback(r@),
        }
    }
}

impl From<Deposit> for Transaction {
    fn from(deposit: Deposit) -> (transaction: Transaction) {
        Transaction::Deposit(deposit)
    }
}

impl FromSpecImpl<Deposit> for Transaction {
    open spec fn obeys_from_spec() -> bool {
        true
    }

    open spec fn from_spec(deposit: Deposit) -> Transaction {
        Transaction::Deposit(deposit)
    }
}

impl From<Withdrawal> for Transaction {
    fn from(withdrawal: Withdrawal) -> (transaction: Transaction) {
        Transaction::Withdrawal(withdrawal)
    }
}

impl FromSpecImpl<Withdrawal> for Transaction {
    open spec fn obeys_from_spec() -> bool {
        true
    }

    open spec fn from_spec(withdrawal: Withdrawal) -> Transaction {
        Transaction::Withdrawal(withdrawal)
    }
}

impl From<Dispute> for Transaction {
    fn from(dispute: Dispute) -> (transaction: Transaction) {
        Transaction::Dispute(dispute)
    }
}

impl FromSpecImpl<Dispute> for Transaction {
    open spec fn obeys_from_spec() -> bool {
        true
    }

    open spec fn from_spec(dispute: Dispute) -> Transaction {
        Transaction::Dispute(dispute)
    }
}

impl From<Resolve> for Transaction {
    fn from(resolve: Resolve) -> (transaction: Transaction) {
        Transaction::Resolve(resolve)
    }
}

impl FromSpecImpl<Resolve> for Transaction {
    open spec fn obeys_from_spec() -> bool {
        true
    }

    open spec fn from_spec(resolve: Resolve) -> Transaction {
        Transaction::Resolve(resolve)
    }
}

impl From<Chargeback> for Transaction {
    fn from(chargeback: Chargeback) -> (transaction: Transaction) {
        Transaction::Chargeback(chargeback)
    }
}

impl FromSpecImpl<Chargeback> for Transaction {
    open spec fn obeys_from_spec() -> bool {
        true
    }

    open spec fn from_spec(chargeback: Chargeback) -> Transaction {
        Transaction::Chargeback(chargeback)
    }
}

/// View of a balance: the two sums it keeps.
pub ghost struct BalanceModel {
    pub available: int,
    pub held: int,
}

impl BalanceModel {
    /// All the funds of the account, held or not.
    pub open spec fn total(self) -> int {
        self.available + self.held
    }

    /// This balance after `amount` came in.
    pub open spec fn credit(self, amount: int) -> BalanceModel {
        BalanceModel { available: self.available + amount, held: self.held }
    }

    /// This balance after `amount` went out.
    pub open spec fn debit(self, amount: int) -> BalanceModel {
        BalanceModel { available: self.available - amount, held: self.held }
    }

    /// This balance after `amount` was moved from available to held.
    pub open spec fn hold(self, amount: int) -> BalanceModel {
        BalanceModel { available: self.available - amount, held: self.held + amount }
    }

    /// This balance after `amount` was moved from held to available.
    pub open spec fn release(self, amount: int) -> BalanceModel {
        BalanceModel { available: self.available + amount, held: self.held - amount }
    }

    /// Whether both sums can be held by an [`Amount`].
    pub open spec fn representable(self) -> bool {
        representable(self.available) && representable(self.held)
    }
}

/// View of an account: its balance and whether it is locked.
pub ghost struct AccountModel {
    pub balance: BalanceModel,
    pub locked: bool,
}

impl AccountModel {
    /// The account that a client has before anything was booked on it: no
    /// funds, not locked.
    pub open spec fn fresh() -> AccountModel {
        AccountModel { balance: BalanceModel { available: 0, held: 0 }, locked: false }
    }
}

/// Tracks a client's funds. Invariant: total = available + held.
#[derive(Debug, PartialEq, Eq, Clone, Copy, Structural)]
pub struct Balance {
    available: Amount,
    held: Amount,
}

/// A single client account. Locked accounts reject deposits and withdrawals.
#[derive(Debug, PartialEq, Eq, Clone, Copy, Structural)]
pub struct Account {
    pub balance: Balance,
    pub locked: bool,
}

impl View for Balance {
    type V = BalanceModel;

    closed spec fn view(&self) -> BalanceModel {
        BalanceModel { available: self.available@, held: self.held@ }
    }
}

impl View for Account {
    type V = AccountModel;

    open spec fn view(&self) -> AccountModel {
        AccountModel { balance: self.balance@, locked: self.locked }
    }
}

impl Balance {
    pub fn new(available: Amount, held: Amount) -> (balance: Self)
        ensures
            balance@ == (BalanceModel { available: available@, held: held@ }),
    {
        Self { available, held }
    }

    pub fn available(&self) -> (available: Amount)
        ensures
            available@ == self@.available,
    {
        self.available
    }

    pub fn held(&self) -> (held: Amount)
        ensures
            held@ == self@.held,
    {
        self.held
    }

    /// Both sums of a balance are counts that an amount holds.
    pub proof fn lemma_representable(self)
        ensures
            self@.representable(),
    {
        self.available.lemma_representable();
        self.held.lemma_representable();
    }

    /// Available and held funds together, if an amount can hold the sum.
    pub fn checked_total(&self) -> (total: Option<Amount>)
        ensures
            total.is_some() == representable(self@.total()),
            total.is_some() ==> total.unwrap()@ == self@.available + self@.held,
    {
        self.available.checked_add(self.held)
    }

    /// Available and held funds together.
    pub fn total(&self) -> (total: Amount)
        requires
            representable(self@.total()),
        ensures
            total@ == self@.available + self@.held,
    {
        self.available.checked_add(self.held).unwrap()
    }

    /// Credit funds (deposit). Increases available.
    pub fn add(&mut self, amount: Amount)
        requires
            representable(old(self)@.available + amount@),
        ensures
            final(self)@ == old(self)@.credit(amount@),
            final(self)@.total() == old(self)@.total() + amount@,
    {
        self.available = self.available.checked_add(amount).unwrap();
    }

    /// Move funds from available to held (dispute). Total stays the same.
    pub fn hold(&mut self, amount: Amount)
        requires
            old(self)@.hold(amount@).representable(),
        ensures
            final(self)@ == old(self)@.hold(amount@),
            final(self)@.total() == old(self)@.total(),
    {
        self.available = self.available.checked_sub(amount).unwrap();
        self.held = self.held.checked_add(amount).unwrap();
    }

    /// Move funds from held to available (resolve). Total stays the same.
    pub fn release(&mut self, amount: Amount)
        requires
            old(self)@.release(amount@).representable(),
        ensures
            final(self)@ == old(self)@.release(amount@),
            final(self)@.total() == old(self)@.total(),
    {
        self.held = self.held.checked_sub(amount).unwrap();
        self.available = self.available.checked_add(amount).unwrap();
    }

    /// Debit funds (withdrawal). Fails if available < amount, and then
    /// leaves the balance as it was.
    pub fn try_remove(&mut self, amount: Amount) -> (outcome: Result<(), DomainError>)
        requires
            old(self)@.available >= amount@ ==> representable(old(self)@.available - amount@),
        ensures
            old(self)@.available >= amount@ ==> outcome == Ok::<(), DomainError>(())
                && final(self)@ == old(self)@.debit(amount@),
            old(self)@.available < amount@ ==> outcome == Err::<(), DomainError>(
                DomainError::InsufficientFunds,
            ) && final(self)@ == old(self)@,
    {
        if self.available.is_at_least(amount) {
            self.available = self.available.checked_sub(amount).unwrap();
        } else {
            return Err(DomainError::InsufficientFunds);
        }
        Ok(())
    }

    /// Debit funds whether they are available or not.
    pub fn remove(&mut self, amount: Amount)
        requires
            representable(old(self)@.available - amount@),
        ensures
            final(self)@ == old(self)@.debit(amount@),
            final(self)@.total() == old(self)@.total() - amount@,
    {
        self.available = self.available.checked_sub(amount).unwrap();
    }
}

impl Default for Balance {
    /// The balance without funds.
    fn default() -> (balance: Balance)
        ensures
            balance@ == AccountModel::fresh().balance,
    {
        Balance { available: Amount::zero(), held: Amount::zero() }
    }
}

impl Default for Account {
    /// The account without funds, not locked.
    fn default() -> (account: Account)
        ensures
            account@ == AccountModel::fresh(),
    {
        Account { balance: Balance::default(), locked: false }
    }
}

} // verus!
