//! The generated ignore-list files.

use vstd::prelude::*;
use crate::text::str_owned;

verus! {

/// The text of the generated container ignore file.
pub open spec fn docker_ignore_content_spec() -> Seq<char> {
    "target\n.git\n.env\n"@
}

/// Renders the container ignore file.
pub fn docker_ignore_content() -> (r: String)
    ensures
        r@ == docker_ignore_content_spec(),
{
    str_owned("target\n.git\n.env\n")
}

/// The text of the generated source-control ignore file.
pub open spec fn git_ignore_content_spec() -> Seq<char> {
    "/target\n.env\n"@
}

/// Renders the source-control ignore file.
pub fn git_ignore_content() -> (r: String)
    ensures
        r@ == git_ignore_content_spec(),
{
    str_owned("/target\n.env\n")
}

} // verus!
