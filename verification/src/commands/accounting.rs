//! The ledger's commands.

use vstd::prelude::*;

verus! {

/// What a caller submits to post a record.
#[derive(Debug, Clone, Copy, PartialEq, Eq, Structural)]
pub struct PostAccountingRecordDto {
    pub id: i64,
}

} // verus!
