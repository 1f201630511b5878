use crate::constants::{DATABASE_DIR, DATABASE_NAME};
use crate::path::{expand_tilde, expansion_of};
use vstd::prelude::*;
use vstd::string::StringExecFns;

verus! {

/// The address of the database file that lies in a directory.
pub open spec fn url_in(database_dir: Seq<char>) -> Seq<char> {
    "sqlite://"@ + database_dir + seq!['/'] + DATABASE_NAME@
}

/// The directory that holds the catalog's database file, with its leading tilde expanded
/// to the caller's home directory.
pub fn database_dir() -> (out: String)
    ensures
        expansion_of(DATABASE_DIR@, out@),
{
    expand_tilde(DATABASE_DIR)
}

/// The address under which the database file in `database_dir` is opened.
pub fn database_url(database_dir: &str) -> (out: String)
    ensures
        out@ == url_in(database_dir@),
{
    let mut out = String::from_str("sqlite://");
    out.append(database_dir);
    proof {
        reveal_strlit("/");
    }
    out.append("/");
    out.append(DATABASE_NAME);
    assert(out@ =~= url_in(database_dir@));
    out
}

} // verus!
