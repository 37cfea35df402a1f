//! The compound `up`/`update` command: switch, fetch, rebase.

use vstd::prelude::*;
use vstd::string::StringExecFns;
use crate::spec_exit_code;
use crate::exit_code_of;
use crate::str_eq;

verus! {

/// The tokens that select the compound update command instead of the
/// shortcut table.
pub open spec fn spec_is_up(t: Seq<char>) -> bool {
    t == "up"@ || t == "update"@
}

/// True exactly when the first token selects the compound update command.
pub fn is_up_trigger(t: &String) -> (r: bool)
    ensures
        r == spec_is_up(t@),
{
    str_eq(t.as_str(), "up") || str_eq(t.as_str(), "update")
}

/// The target branch of the update: the first remaining token, or `main`
/// when none was given.
pub open spec fn spec_up_branch(rest: Seq<Seq<char>>) -> Seq<char> {
    if rest.len() > 0 {
        rest[0]
    } else {
        "main"@
    }
}

/// Picks the target branch of the update out of the tokens that followed the
/// trigger, defaulting to `main`.
pub fn up_branch(rest: &Vec<String>) -> (r: String)
    ensures
        r@ == spec_up_branch(rest.deep_view()),
{
    if rest.len() > 0 {
        rest[0].clone()
    } else {
        String::from_str("main")
    }
}

/// The three `git` argument lists the update issues, in order: switch to the
/// target branch, fetch with pruning, rebase onto the branch's remote.
pub fn up_commands(branch: &String) -> (r: Vec<Vec<String>>)
    ensures
        r.deep_view().len() == 3,
        r.deep_view()[0] == seq!["switch"@, branch@],
        r.deep_view()[1] == seq!["fetch"@, "-p"@],
        r.deep_view()[2] == seq!["rebase"@, "origin/"@ + branch@],
{
    let mut switch_cmd: Vec<String> = Vec::new();
    switch_cmd.push(String::from_str("switch"));
    switch_cmd.push(branch.clone());

    let mut fetch_cmd: Vec<String> = Vec::new();
    fetch_cmd.push(String::from_str("fetch"));
    fetch_cmd.push(String::from_str("-p"));

    let mut rebase_cmd: Vec<String> = Vec::new();
    rebase_cmd.push(String::from_str("rebase"));
    rebase_cmd.push(String::from_str("origin/").concat(branch.as_str()));

    let mut r: Vec<Vec<String>> = Vec::new();
    r.push(switch_cmd);
    r.push(fetch_cmd);
    r.push(rebase_cmd);
    proof {
        assert(r.deep_view()[0] =~= seq!["switch"@, branch@]);
        assert(r.deep_view()[1] =~= seq!["fetch"@, "-p"@]);
        assert(r.deep_view()[2] =~= seq!["rebase"@, "origin/"@ + branch@]);
    }
    r
}

/// Whether the update stops after the given step: it stops on any failing
/// step, and in every case after the last one.
pub open spec fn spec_up_stops(step: int, success: bool) -> bool {
    !success || step == 2
}

/// Decides, after step `step` of the update finished with the given success
/// flag and exit code, whether to go on to the next step (`None`) or to stop
/// and report an exit code (`Some`). A failing step stops the sequence at
/// once with that step's code, so a later step is never reached; the final
/// step's code is reported as it stands.
pub fn up_decision(step: usize, success: bool, code: Option<i32>) -> (r: Option<i32>)
    requires
        step < 3,
    ensures
        r is Some <==> spec_up_stops(step as int, success),
        r is Some ==> r.unwrap() == spec_exit_code(code),
{
    if !success || step == 2 {
        Some(exit_code_of(code))
    } else {
        None
    }
}

} // verus!
