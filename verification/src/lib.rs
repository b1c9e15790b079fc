//! Validation engine for a time-boxed, privacy-preserving voting protocol on an
//! extended-UTXO ledger.
//!
//! A transaction is handed to the engine as a [`ledger::Ledger`] snapshot. The
//! engine decides whether the transaction is a legal transition for an escrow
//! fund, an event's metadata, a voter's ballot or a published result, and
//! answers with a signed status code: [`dispatch::program_entry`] is the way
//! in, and [`laws`] states what holds of its verdicts.

pub mod bytes;
pub mod codes;
pub mod codec;
pub mod crypto;
pub mod dispatch;
pub mod laws;
pub mod ledger;
pub mod scan;
pub mod validators;
