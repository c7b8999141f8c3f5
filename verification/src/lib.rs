//! Validator for a singleton on-chain time-beacon record.
//!
//! The record is a 5-byte cell payload (a slot index and a big-endian
//! timestamp) guarded by a type script. This crate holds the whole
//! validation logic as pure functions over a read-only transaction view;
//! the surrounding ledger runtime supplies that view and aborts the
//! transaction whenever a rejection code comes back.

pub mod create;
pub mod entry;
pub mod error;
pub mod helper;
pub mod ledger;
pub mod record;
pub mod update;
