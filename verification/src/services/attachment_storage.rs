//! Where attachments are kept, and under what file names.

use vstd::prelude::*;
use vstd::string::StringExecFns;
use crate::text::{signed_decimal, signed_decimal_text};

verus! {

/// The directory of the application within the user's data directory.
pub const APP_DIRECTORY: &'static str = "accounting-assistant";

/// The directory of stored files within the application's directory.
pub const STORAGE_DIRECTORY: &'static str = "fileStorage";

/// The directory of attachments within that of stored files.
pub const ATTACHMENT_DIRECTORY: &'static str = "attachment";

/// The form of a month's directory name.
pub const MONTH_FORMAT: &'static str = "%Y-%m";

/// The name under which a file is stored: the time of storing, in
/// milliseconds, a hyphen, and the file's own name.
pub open spec fn stored_name(timestamp_millis: i64, original_filename: Seq<char>) -> Seq<char> {
    signed_decimal(timestamp_millis as int) + "-"@ + original_filename
}

/// The name under which a file is stored at the given time.
pub fn generate_filename(timestamp_millis: i64, original_filename: &str) -> (name: String)
    ensures
        name@ == stored_name(timestamp_millis, original_filename@),
{
    let mut name = signed_decimal_text(timestamp_millis);
    name.append("-");
    name.append(original_filename);
    name
}

} // verus!
