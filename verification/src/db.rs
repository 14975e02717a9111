//! What the database set-up decides.

use vstd::prelude::*;

use crate::text::{contains_seq, contains_str};

verus! {

/// Where the database lives.
pub const DATABASE_URL: &'static str = "sqlite://slauncher.db?mode=rwc";

/// Whether an error of creating the servers table only says that the table
/// is already there (SQLite reports "table already exists" on re-creation),
/// so that set-up goes on.
pub fn table_exists_error(message: &str) -> (r: bool)
    ensures
        r == contains_seq(message@, "already exists"@),
{
    contains_str(message, "already exists")
}

} // verus!
