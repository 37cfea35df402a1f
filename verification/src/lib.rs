//! `gi`: an alias expander for the `git` command line.
//!
//! The library holds the verified core of the tool: the table that rewrites a
//! short trigger token into the full argument list handed to `git`, the plan
//! for the compound `up`/`update` command, and the rule that turns a child
//! process status into this program's own exit code. Spawning the child
//! processes themselves is left to the thin binary around the library.

use vstd::prelude::*;
use vstd::string::StringExecFns;

pub mod expand;
pub mod update;

verus! {

/// Equality of two string slices, specified over their character sequences.
pub(crate) fn str_eq(a: &str, b: &str) -> (r: bool)
    ensures
        r == (a@ == b@),
{
    let x = String::from_str(a);
    let y = String::from_str(b);
    x == y
}

/// The exit code reported for a finished child process: the child's own code
/// where it has one, and 1 where none can be determined (for example when the
/// child was killed by a signal).
pub open spec fn spec_exit_code(code: Option<i32>) -> i32 {
    match code {
        Some(c) => c,
        None => 1,
    }
}

/// The exit code this program reports after its final child process: the
/// child's code, or 1 if the code is unavailable.
pub fn exit_code_of(code: Option<i32>) -> (r: i32)
    ensures
        r == spec_exit_code(code),
{
    match code {
        Some(c) => c,
        None => 1,
    }
}

} // verus!
