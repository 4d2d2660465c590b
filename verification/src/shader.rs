//! Building a shader program: which status each step leaves to check, and
//! the diagnostic for a step that failed.

use crate::text::str_eq;
use vstd::prelude::*;
use vstd::string::StringExecFns;

verus! {

/// The status that a build step leaves behind: that of compiling one
/// shader, or that of linking the program.
#[derive(Clone, Copy, Debug, PartialEq, Eq, Structural)]
pub enum BuildStatus {
    Compile,
    Link,
}

/// The status to check after the step called `name`: the step called
/// `PROGRAM` links, every other step compiles a shader.
pub open spec fn spec_build_status(name: Seq<char>) -> BuildStatus {
    if name == "PROGRAM"@ {
        BuildStatus::Link
    } else {
        BuildStatus::Compile
    }
}

/// The diagnostic for a failed step called `name` that left `info_log`.
pub open spec fn spec_diagnostic(name: Seq<char>, info_log: Seq<char>) -> Seq<char> {
    "ERROR::"@ + name + ":\n"@ + info_log + "\n"@
}

/// The status to check after the build step called `name`.
pub fn build_status(name: &str) -> (r: BuildStatus)
    ensures
        r == spec_build_status(name@),
{
    if str_eq(name, "PROGRAM") {
        BuildStatus::Link
    } else {
        BuildStatus::Compile
    }
}

/// The diagnostic with which the build is given up after the step called
/// `name` has failed and left `info_log`.
pub fn diagnostic(name: &str, info_log: &str) -> (r: String)
    ensures
        r@ == spec_diagnostic(name@, info_log@),
{
    let mut out = String::new();
    out.append("ERROR::");
    out.append(name);
    out.append(":\n");
    out.append(info_log);
    out.append("\n");
    assert(out@ =~= spec_diagnostic(name@, info_log@));
    out
}

} // verus!
