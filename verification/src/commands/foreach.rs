//! The `forall` command: one shell command run in each repo of the workspace.
use vstd::prelude::*;
use crate::commands::CommandError;
use crate::workspace::WorkspaceError;

verus! {

/// The words of a command joined by single spaces, as `sh -c` receives them.
pub open spec fn joined_words(words: Seq<String>) -> Seq<char>
    decreases words.len(),
{
    if words.len() == 0 {
        Seq::empty()
    } else if words.len() == 1 {
        words[0]@
    } else {
        joined_words(words.drop_last()) + seq![' '] + words.last()@
    }
}

/// How many of the runs failed.
pub open spec fn failed_runs(results: Seq<Result<(), WorkspaceError>>) -> nat
    decreases results.len(),
{
    if results.len() == 0 {
        0
    } else {
        failed_runs(results.drop_last()) + if results.last() is Err {
            1nat
        } else {
            0nat
        }
    }
}

/// The command line to run in each repo: the words given, joined by spaces.
pub fn command_line(words: &Vec<String>) -> (r: String)
    ensures
        r@ == joined_words(words@),
{
    let mut out = String::new();
    let mut i: usize = 0;
    while i < words.len()
        invariant
            0 <= i <= words@.len(),
            out@ == joined_words(words@.subrange(0, i as int)),
        decreases words@.len() - i,
    {
        let ghost s = words@.subrange(0, i + 1);
        assert(s.drop_last() =~= words@.subrange(0, i as int));
        proof {
            reveal_strlit(" ");
        }
        if i > 0 {
            out.append(" ");
        }
        out.append(words[i].as_str());
        proof {
            if i == 0 {
                assert(out@ =~= s[0]@);
            } else {
                assert(out@ =~= joined_words(s.drop_last()) + seq![' '] + s.last()@);
            }
        }
        i = i + 1;
    }
    assert(words@.subrange(0, i as int) =~= words@);
    out
}

/// The outcome of `forall`, given the outcome of the command in each repo: it fails when
/// the command failed in any repo, saying in how many out of how many.
pub fn run(results: &Vec<Result<(), WorkspaceError>>) -> (r: Result<(), CommandError>)
    ensures
        r is Ok <==> failed_runs(results@) == 0,
        r is Ok <==> forall|i: int| 0 <= i < results@.len() ==> results@[i] is Ok,
        r matches Err(e) ==> (e matches CommandError::ForallFailed { failed, total }
            && failed == failed_runs(results@) && total == results@.len()),
{
    let total = results.len();
    let mut failed: usize = 0;
    let mut i: usize = 0;
    while i < total
        invariant
            total == results@.len(),
            0 <= i <= total,
            failed == failed_runs(results@.subrange(0, i as int)),
            failed <= i,
        decreases total - i,
    {
        let ghost s = results@.subrange(0, i + 1);
        assert(s.drop_last() =~= results@.subrange(0, i as int));
        if results[i].is_err() {
            failed = failed + 1;
        }
        i = i + 1;
    }
    assert(results@.subrange(0, total as int) =~= results@);
    proof {
        law_forall_counts_every_failure(results@);
    }
    if failed > 0 {
        Err(CommandError::ForallFailed { failed, total })
    } else {
        Ok(())
    }
}

/// The command line of two lists of words is the command line of the first, a space, and
/// the command line of the second: the words come in their order, one space between each
/// two, and no space at either end.
pub proof fn law_command_line_joins_in_order(a: Seq<String>, b: Seq<String>)
    requires
        a.len() > 0,
        b.len() > 0,
    ensures
        joined_words(a + b) == joined_words(a) + seq![' '] + joined_words(b),
    decreases b.len(),
{
    if b.len() == 1 {
        assert((a + b).drop_last() =~= a);
        assert(joined_words(b) == b[0]@);
    } else {
        law_command_line_joins_in_order(a, b.drop_last());
        assert((a + b).drop_last() =~= a + b.drop_last());
        assert((a + b).last() == b.last());
    }
}

/// `forall` counts a failure for every repo whose run failed, wherever it stands: no runs
/// count none; one more run adds one exactly when it failed; so the count is the number of
/// failed runs, and it is not zero exactly when some run failed.
pub proof fn law_forall_counts_every_failure(results: Seq<Result<(), WorkspaceError>>)
    ensures
        failed_runs(Seq::<Result<(), WorkspaceError>>::empty()) == 0,
        forall|x: Result<(), WorkspaceError>| #[trigger] failed_runs(results.push(x))
            == failed_runs(results) + if x is Err { 1int } else { 0int },
        failed_runs(results) == results.filter(|x: Result<(), WorkspaceError>| x is Err).len(),
        failed_runs(results) <= results.len(),
        failed_runs(results) > 0 <==> exists|i: int| 0 <= i < results.len() && results[i] is Err,
    decreases results.len(),
{
    reveal(Seq::filter);
    assert forall|x: Result<(), WorkspaceError>| #[trigger] failed_runs(results.push(x))
        == failed_runs(results) + if x is Err { 1int } else { 0int } by {
        assert(results.push(x).drop_last() =~= results);
    }
    if results.len() > 0 {
        let rest = results.drop_last();
        law_forall_counts_every_failure(rest);
        if failed_runs(results) > 0 {
            if results.last() is Err {
                assert(results[results.len() - 1] is Err);
            } else {
                let i = choose|i: int| 0 <= i < rest.len() && rest[i] is Err;
                assert(results[i] == rest[i]);
            }
        }
        if exists|i: int| 0 <= i < results.len() && results[i] is Err {
            let i = choose|i: int| 0 <= i < results.len() && results[i] is Err;
            if i < rest.len() {
                assert(rest[i] == results[i]);
            }
        }
    }
}

} // verus!
