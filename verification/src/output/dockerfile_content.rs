//! The generated container build descriptor.

use vstd::prelude::*;
use vstd::string::StringExecFns;

verus! {

/// The text of the generated Dockerfile: a two-stage build that compiles the
/// project and copies the release binary into a slim image.
pub open spec fn dockerfile_content_spec(project_name: Seq<char>) -> Seq<char> {
    "\nFROM rust:1.70 AS builder\nWORKDIR /usr/src/"@ + project_name
        + "\nCOPY . .\nRUN cargo build --release\n\nFROM debian:buster-slim\nCOPY --from=builder /usr/src/"@
        + project_name + "/target/release/"@ + project_name + " /usr/local/bin/app\nCMD [\"app\"]\n"@
}

/// Renders the Dockerfile for a project name.
pub fn dockerfile_content(project_name: &str) -> (r: String)
    ensures
        r@ == dockerfile_content_spec(project_name@),
{
    let mut r = String::new();
    r.append("\nFROM rust:1.70 AS builder\nWORKDIR /usr/src/");
    r.append(project_name);
    r.append(
        "\nCOPY . .\nRUN cargo build --release\n\nFROM debian:buster-slim\nCOPY --from=builder /usr/src/",
    );
    r.append(project_name);
    r.append("/target/release/");
    r.append(project_name);
    r.append(" /usr/local/bin/app\nCMD [\"app\"]\n");
    proof {
        assert(r@ =~= dockerfile_content_spec(project_name@));
    }
    r
}

} // verus!
