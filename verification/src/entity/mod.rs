//! The rows of the ledger's tables, as plain values.

pub mod accounting_record;
pub mod accounting_record_seq;
pub mod attachment;
