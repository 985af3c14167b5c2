//! Where the database is found.

use vstd::prelude::*;
use vstd::string::StringExecFns;

verus! {

/// The file of the database within the application's data directory.
pub const DATABASE_FILE: &'static str = "core.sqlite";

/// The directory that holds the database where the application gives none.
pub const FALLBACK_DIRECTORY: &'static str = "vibe-kanban";

/// The address of the database in a file: the file is opened for reading
/// and writing and is made if it is not there.
pub open spec fn database_url(path: Seq<char>) -> Seq<char> {
    "sqlite:"@ + path + "?mode=rwc"@
}

/// The address under which the database in the given file is opened;
/// `path` is `None` where the file's path is no text.
pub fn init_db(path: Option<&str>) -> (url: Result<String, String>)
    ensures
        match path {
            Some(path) => url matches Ok(text) && text@ == database_url(path@),
            None => url matches Err(message) && message@ == "Invalid database path"@,
        },
{
    match path {
        Some(path) => {
            let mut url = String::from_str("sqlite:");
            url.append(path);
            url.append("?mode=rwc");
            Ok(url)
        },
        None => Err(String::from_str("Invalid database path")),
    }
}

} // verus!
