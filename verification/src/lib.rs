//! A payments engine: it applies deposits, withdrawals, disputes, resolutions
//! and chargebacks to per-client accounts, one transaction at a time, and
//! keeps for each deposit where it stands in the dispute process.
//!
//! - [`amount`]: exact amounts of money, fixed-point numbers with four
//!   fractional digits. Sums, differences and comparisons are computed by
//!   `rust_decimal`.
//! - [`domain`]: identifiers, transactions, balances and accounts.
//! - [`engine`]: the two stores, the engine, the rules it follows
//!   ([`engine::rules`]) and what follows from them ([`engine::laws`]).
//! - [`parsing`]: from a flat input record to a transaction.
//! - [`output`]: from the accounts to flat output records.
//!
//! Every type has a view, a plain mathematical value, and every contract is
//! stated over views. Reading and writing files is left to the caller.

pub mod amount;
pub mod domain;
pub mod engine;
pub mod output;
pub mod parsing;
