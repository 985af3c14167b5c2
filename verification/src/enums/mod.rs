//! The closed vocabularies of the ledger.

pub mod accounting;

pub use accounting::{AccountingChannel, AccountingRecordState, AccountingType};
