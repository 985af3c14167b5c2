//! A file attached to a record of the ledger.

use vstd::prelude::*;

verus! {

/// The row of an attachment.
#[derive(Debug)]
pub struct Model {
    pub id: i64,
    pub master_id: i64,
    pub path: String,
    pub file_name: String,
    pub file_suffix: String,
    pub file_size: String,
    pub create_at: chrono::NaiveDateTime,
}

} // verus!
