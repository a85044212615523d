//! Where the store lies.

use vstd::prelude::*;
use vstd::string::*;

verus! {

/// The name of the database file within the data directory.
pub const DATABASE_FILE: &'static str = "hysterion_perms.db";

/// What stands before the file's path in the address of the database.
pub const SQLITE_SCHEME: &'static str = "sqlite:";

/// The address under which the database in the file `path` is opened.
pub fn database_url(path: &str) -> (url: String)
    ensures
        url@ == SQLITE_SCHEME@ + path@,
{
    let mut url = SQLITE_SCHEME.to_owned();
    url.append(path);
    url
}

} // verus!
