//! The generated `.env` file.

use vstd::prelude::*;
use vstd::string::StringExecFns;

verus! {

/// The text of the generated environment file: the database URL under the
/// conventional variable name.
pub open spec fn env_content_spec(database_url: Seq<char>) -> Seq<char> {
    "\nDATABASE_URL = \""@ + database_url + "\"\n        "@
}

/// Renders the environment file for a database URL.
pub fn env_content(database_url: &str) -> (r: String)
    ensures
        r@ == env_content_spec(database_url@),
{
    let mut r = String::new();
    r.append("\nDATABASE_URL = \"");
    r.append(database_url);
    r.append("\"\n        ");
    proof {
        assert(r@ =~= env_content_spec(database_url@));
    }
    r
}

} // verus!
