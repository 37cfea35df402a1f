//! The shortcut table: rewriting a trigger token into `git` arguments.

use vstd::prelude::*;
use vstd::string::StringExecFns;
use crate::str_eq;

verus! {

/// Triggers whose expansion needs the name of the currently checked-out
/// branch (`push origin <branch>`, with or without `--force`).
pub open spec fn spec_needs_branch(t: Seq<char>) -> bool {
    t == "ps"@ || t == "psf"@
}

/// True exactly when expanding an argument list that starts with `t` would
/// need the current branch name.
pub fn needs_current_branch(t: &String) -> (r: bool)
    ensures
        r == spec_needs_branch(t@),
{
    str_eq(t.as_str(), "ps") || str_eq(t.as_str(), "psf")
}

/// The branch name an expansion sees: the queried name when one was supplied,
/// and the empty sequence otherwise. Expansions of triggers other than
/// `ps`/`psf` never read it.
pub open spec fn opt_branch_view(branch: Option<String>) -> Seq<char> {
    match branch {
        Some(b) => b@,
        None => Seq::<char>::empty(),
    }
}

/// The whole alias table as one function: the first token selects a rule, and
/// every remaining token is passed through unchanged after the inserted ones.
/// `branch` is read only by the `ps`/`psf` rules.
pub open spec fn spec_expand(args: Seq<Seq<char>>, branch: Seq<char>) -> Seq<Seq<char>>
    recommends
        args.len() > 0,
{
    let first = args[0];
    let rest = args.drop_first();
    if first == "git"@ || first == "gi"@ {
        rest
    } else if first == "status"@ || first == "st"@ {
        seq!["status"@] + rest
    } else if first == "co"@ {
        seq!["commit"@] + rest
    } else if first == "br"@ {
        seq!["branch"@] + rest
    } else if first == "ch"@ {
        seq!["checkout"@] + rest
    } else if first == "dif"@ {
        seq!["difftool"@] + rest
    } else if first == "lg"@ || first == "ls"@ {
        seq!["log"@, "--pretty=short"@] + rest
    } else if first == "reset"@ || first == "re"@ {
        seq!["reset"@, "--hard"@, "HEAD"@] + rest
    } else if first == "new"@ || first == "n"@ || first == "chb"@ {
        seq!["checkout"@, "-b"@] + rest
    } else if first == "fp"@ {
        seq!["fetch"@, "-p"@] + rest
    } else if first == "switch"@ || first == "s"@ {
        seq!["switch"@] + rest
    } else if first == "ps"@ {
        seq!["push"@, "origin"@, branch] + rest
    } else if first == "psf"@ {
        seq!["push"@, "origin"@, branch, "--force"@] + rest
    } else if first == "sp"@ || first == "stashpop"@ {
        seq!["stash"@, "pop"@] + rest
    } else if first == "su"@ || first == "stashu"@ {
        seq!["stash"@, "--include-untracked"@] + rest
    } else if first == "commit"@ || first == "c"@ {
        seq!["commit"@] + rest
    } else if first == "modify"@ || first == "m"@ {
        seq!["commit"@, "--amend"@] + rest
    } else if first == "sync"@ {
        seq!["pull"@, "--rebase"@] + rest
    } else if first == "rebase"@ || first == "r"@ {
        seq!["rebase"@, "-i"@, "origin/main"@] + rest
    } else if first == "ro"@ || first == "rb"@ {
        seq!["rebase"@, "origin/main"@] + rest
    } else {
        seq![first] + rest
    }
}

/// Expands the first token (the trigger) into the corresponding list of
/// `git` arguments, passing every remaining token through unchanged. The
/// caller supplies the current branch name exactly when the trigger needs it
/// (see [`needs_current_branch`]); an unrecognized trigger is handed on
/// unchanged together with its arguments.
pub fn expand_shortcuts(args: Vec<String>, branch: Option<String>) -> (r: Vec<String>)
    requires
        args@.len() > 0,
        spec_needs_branch(args@[0]@) ==> branch is Some,
    ensures
        r.deep_view() == spec_expand(args.deep_view(), opt_branch_view(branch)),
{
    let ghost all = args.deep_view();
    let ghost bv = opt_branch_view(branch);
    let mut rest = args;
    let first: String = rest.remove(0);
    proof {
        assert(rest.deep_view() =~= all.drop_first());
    }

    let r: Vec<String> = if str_eq(first.as_str(), "git") || str_eq(first.as_str(), "gi") {
        rest
    } else if str_eq(first.as_str(), "status") || str_eq(first.as_str(), "st") {
        prepend(String::from_str("status"), rest)
    } else if str_eq(first.as_str(), "co") {
        prepend(String::from_str("commit"), rest)
    } else if str_eq(first.as_str(), "br") {
        prepend(String::from_str("branch"), rest)
    } else if str_eq(first.as_str(), "ch") {
        prepend(String::from_str("checkout"), rest)
    } else if str_eq(first.as_str(), "dif") {
        prepend(String::from_str("difftool"), rest)
    } else if str_eq(first.as_str(), "lg") || str_eq(first.as_str(), "ls") {
        prepend(String::from_str("log"), prepend(String::from_str("--pretty=short"), rest))
    } else if str_eq(first.as_str(), "reset") || str_eq(first.as_str(), "re") {
        prepend(
            String::from_str("reset"),
            prepend(String::from_str("--hard"), prepend(String::from_str("HEAD"), rest)),
        )
    } else if str_eq(first.as_str(), "new") || str_eq(first.as_str(), "n") || str_eq(
        first.as_str(),
        "chb",
    ) {
        prepend(String::from_str("checkout"), prepend(String::from_str("-b"), rest))
    } else if str_eq(first.as_str(), "fp") {
        prepend(String::from_str("fetch"), prepend(String::from_str("-p"), rest))
    } else if str_eq(first.as_str(), "switch") || str_eq(first.as_str(), "s") {
        prepend(String::from_str("switch"), rest)
    } else if str_eq(first.as_str(), "ps") {
        let b = branch.unwrap();
        prepend(String::from_str("push"), prepend(String::from_str("origin"), prepend(b, rest)))
    } else if str_eq(first.as_str(), "psf") {
        let b = branch.unwrap();
        prepend(
            String::from_str("push"),
            prepend(
                String::from_str("origin"),
                prepend(b, prepend(String::from_str("--force"), rest)),
            ),
        )
    } else if str_eq(first.as_str(), "sp") || str_eq(first.as_str(), "stashpop") {
        prepend(String::from_str("stash"), prepend(String::from_str("pop"), rest))
    } else if str_eq(first.as_str(), "su") || str_eq(first.as_str(), "stashu") {
        prepend(String::from_str("stash"), prepend(String::from_str("--include-untracked"), rest))
    } else if str_eq(first.as_str(), "commit") || str_eq(first.as_str(), "c") {
        prepend(String::from_str("commit"), rest)
    } else if str_eq(first.as_str(), "modify") || str_eq(first.as_str(), "m") {
        prepend(String::from_str("commit"), prepend(String::from_str("--amend"), rest))
    } else if str_eq(first.as_str(), "sync") {
        prepend(String::from_str("pull"), prepend(String::from_str("--rebase"), rest))
    } else if str_eq(first.as_str(), "rebase") || str_eq(first.as_str(), "r") {
        prepend(
            String::from_str("rebase"),
            prepend(String::from_str("-i"), prepend(String::from_str("origin/main"), rest)),
        )
    } else if str_eq(first.as_str(), "ro") || str_eq(first.as_str(), "rb") {
        prepend(String::from_str("rebase"), prepend(String::from_str("origin/main"), rest))
    } else {
        prepend(first, rest)
    };
    proof {
        assert(r.deep_view() =~= spec_expand(all, bv));
    }
    r
}

/// Puts `head` in front of `tail`.
pub fn prepend(head: String, tail: Vec<String>) -> (r: Vec<String>)
    ensures
        r.deep_view() == seq![head@] + tail.deep_view(),
{
    let mut v: Vec<String> = Vec::new();
    v.push(head);
    let mut t = tail;
    v.append(&mut t);
    proof {
        assert(v.deep_view() =~= seq![head@] + tail.deep_view());
    }
    v
}

/// The trigger tokens the table recognizes; any other first token falls
/// through to `git` unchanged.
pub open spec fn spec_is_trigger(t: Seq<char>) -> bool {
    ||| t == "git"@
    ||| t == "gi"@
    ||| t == "status"@
    ||| t == "st"@
    ||| t == "co"@
    ||| t == "br"@
    ||| t == "ch"@
    ||| t == "dif"@
    ||| t == "lg"@
    ||| t == "ls"@
    ||| t == "reset"@
    ||| t == "re"@
    ||| t == "new"@
    ||| t == "n"@
    ||| t == "chb"@
    ||| t == "fp"@
    ||| t == "switch"@
    ||| t == "s"@
    ||| t == "ps"@
    ||| t == "psf"@
    ||| t == "sp"@
    ||| t == "stashpop"@
    ||| t == "su"@
    ||| t == "stashu"@
    ||| t == "commit"@
    ||| t == "c"@
    ||| t == "modify"@
    ||| t == "m"@
    ||| t == "sync"@
    ||| t == "rebase"@
    ||| t == "r"@
    ||| t == "ro"@
    ||| t == "rb"@
}

/// Expansion is a pure function of the argument list alone for every trigger
/// but `ps` and `psf`: only those two read the current branch name, so the
/// supplied branch cannot change any other expansion.
pub proof fn lemma_expand_branch_independent(
    args: Seq<Seq<char>>,
    branch1: Seq<char>,
    branch2: Seq<char>,
)
    requires
        args.len() > 0,
        !spec_needs_branch(args[0]),
    ensures
        spec_expand(args, branch1) == spec_expand(args, branch2),
{
}

/// The fallback identity: an argument list whose first token matches no
/// trigger is handed to `git` exactly as it was typed, so no token is ever
/// dropped or reordered.
pub proof fn lemma_unmatched_unchanged(args: Seq<Seq<char>>, branch: Seq<char>)
    requires
        args.len() > 0,
        !spec_is_trigger(args[0]),
    ensures
        spec_expand(args, branch) == args,
{
    assert(seq![args[0]] + args.drop_first() =~= args);
}

} // verus!
