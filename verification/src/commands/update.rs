//! The `update` command: every repo is brought to the revision of the manifest; the new
//! lockfile pins each repo that got there, and the command fails if any did not.
use vstd::prelude::*;
use crate::commands::CommandError;
use crate::workspace::lockfile::Lockfile;

verus! {

/// The pins that a list of outcomes makes, in order: each repo whose resolution succeeded is
/// pinned to the hash it was checked out at.
pub open spec fn pins_of(outcomes: Seq<(String, Option<String>)>) -> Map<Seq<char>, Seq<char>>
    decreases outcomes.len(),
{
    if outcomes.len() == 0 {
        Map::empty()
    } else {
        let rest = pins_of(outcomes.drop_last());
        match outcomes.last().1 {
            Some(h) => rest.insert(outcomes.last().0@, h@),
            None => rest,
        }
    }
}

/// How many resolutions failed.
pub open spec fn failures(outcomes: Seq<(String, Option<String>)>) -> nat
    decreases outcomes.len(),
{
    if outcomes.len() == 0 {
        0
    } else {
        failures(outcomes.drop_last()) + if outcomes.last().1 is None {
            1nat
        } else {
            0nat
        }
    }
}

/// Whether no two outcomes are for the same repo name.
pub open spec fn outcome_names_unique(outcomes: Seq<(String, Option<String>)>) -> bool {
    forall|i: int, j: int|
        0 <= i < outcomes.len() && 0 <= j < outcomes.len() && i != j ==> outcomes[i].0@ != outcomes[j].0@
}

/// Given, for each repo of the manifest in order, its name and the hash it was resolved to
/// (or `None` where resolving it failed): the new lockfile, which pins each resolved repo to
/// its hash, and the command's outcome, which fails when any repo failed, saying how many
/// out of how many.
pub fn run(outcomes: Vec<(String, Option<String>)>) -> (r: (Lockfile, Result<(), CommandError>))
    ensures
        r.0@ == pins_of(outcomes@),
        r.1 is Ok <==> failures(outcomes@) == 0,
        r.1 is Ok <==> forall|i: int| 0 <= i < outcomes@.len() ==> outcomes@[i].1 is Some,
        r.1 matches Err(e) ==> (e matches CommandError::UpdateFailed { failed, total }
            && failed == failures(outcomes@) && total == outcomes@.len()),
{
    let total = outcomes.len();
    let mut lockfile = Lockfile::new();
    let mut failed: usize = 0;
    let mut i: usize = 0;
    while i < total
        invariant
            total == outcomes@.len(),
            0 <= i <= total,
            lockfile@ == pins_of(outcomes@.subrange(0, i as int)),
            failed == failures(outcomes@.subrange(0, i as int)),
            failed <= i,
        decreases total - i,
    {
        let ghost s = outcomes@.subrange(0, i + 1);
        assert(s.drop_last() =~= outcomes@.subrange(0, i as int));
        match &outcomes[i].1 {
            Some(h) => {
                lockfile.insert(outcomes[i].0.clone(), h.clone());
            },
            None => {
                failed = failed + 1;
            },
        }
        i = i + 1;
    }
    assert(outcomes@.subrange(0, total as int) =~= outcomes@);
    proof {
        law_update_counts_every_failure(outcomes@);
    }
    if failed > 0 {
        (lockfile, Err(CommandError::UpdateFailed { failed, total }))
    } else {
        (lockfile, Ok(()))
    }
}

/// What `pins_of` holds for a name.
proof fn lemma_pins_of(outcomes: Seq<(String, Option<String>)>, n: Seq<char>)
    requires
        outcome_names_unique(outcomes),
    ensures
        pins_of(outcomes).contains_key(n) <==> exists|i: int|
            0 <= i < outcomes.len() && outcomes[i].0@ == n && outcomes[i].1 is Some,
        forall|i: int|
            0 <= i < outcomes.len() && outcomes[i].0@ == n && (outcomes[i].1 matches Some(h))
                ==> pins_of(outcomes)[n] == outcomes[i].1.unwrap()@,
    decreases outcomes.len(),
{
    if outcomes.len() > 0 {
        let rest = outcomes.drop_last();
        assert(outcome_names_unique(rest)) by {
            assert forall|i: int, j: int|
                0 <= i < rest.len() && 0 <= j < rest.len() && i != j implies rest[i].0@ != rest[j].0@ by {
                assert(rest[i] == outcomes[i] && rest[j] == outcomes[j]);
            }
        }
        lemma_pins_of(rest, n);
        let last = outcomes.len() - 1;
        if pins_of(outcomes).contains_key(n) {
            if outcomes[last].0@ == n && outcomes[last].1 is Some {
            } else {
                let i = choose|i: int| 0 <= i < rest.len() && rest[i].0@ == n && rest[i].1 is Some;
                assert(outcomes[i] == rest[i]);
            }
        }
        assert forall|i: int|
            0 <= i < outcomes.len() && outcomes[i].0@ == n && (outcomes[i].1 matches Some(h))
                implies pins_of(outcomes)[n] == outcomes[i].1.unwrap()@ by {
            if i < last {
                assert(outcomes[i] == rest[i]);
                assert(outcomes[last].0@ != n);
            }
        }
        assert forall|i: int| 0 <= i < outcomes.len() && outcomes[i].0@ == n && outcomes[i].1 is Some
            implies pins_of(outcomes).contains_key(n) by {
            if i < last {
                assert(outcomes[i] == rest[i]);
            }
        }
    }
}

/// The lockfile that `update` writes pins exactly the repos that were brought to their
/// revision, each to the hash it was checked out at; a repo that failed has no pin. (Repo
/// names are unique, as the manifest's edits keep them.)
pub proof fn law_update_pins_resolved_repos(outcomes: Seq<(String, Option<String>)>)
    requires
        outcome_names_unique(outcomes),
    ensures
        forall|i: int| 0 <= i < outcomes.len() ==> match #[trigger] outcomes[i].1 {
            Some(h) => pins_of(outcomes).contains_key(outcomes[i].0@) && pins_of(outcomes)[outcomes[i].0@] == h@,
            None => !pins_of(outcomes).contains_key(outcomes[i].0@),
        },
        forall|n: Seq<char>| #[trigger] pins_of(outcomes).contains_key(n) ==> exists|i: int|
            0 <= i < outcomes.len() && outcomes[i].0@ == n && outcomes[i].1 is Some,
{
    assert forall|i: int| 0 <= i < outcomes.len() implies match #[trigger] outcomes[i].1 {
        Some(h) => pins_of(outcomes).contains_key(outcomes[i].0@) && pins_of(outcomes)[outcomes[i].0@] == h@,
        None => !pins_of(outcomes).contains_key(outcomes[i].0@),
    } by {
        lemma_pins_of(outcomes, outcomes[i].0@);
        if outcomes[i].1 is None && pins_of(outcomes).contains_key(outcomes[i].0@) {
            let k = choose|k: int| 0 <= k < outcomes.len() && outcomes[k].0@ == outcomes[i].0@ && outcomes[k].1 is Some;
            assert(k != i);
        }
    }
    assert forall|n: Seq<char>| #[trigger] pins_of(outcomes).contains_key(n) implies exists|i: int|
        0 <= i < outcomes.len() && outcomes[i].0@ == n && outcomes[i].1 is Some by {
        lemma_pins_of(outcomes, n);
    }
}

/// `update` counts a failure for every repo that could not be resolved, wherever it
/// stands: no outcomes count none; one more outcome adds one exactly when it has no hash;
/// so the count is the number of failed repos, and it is not zero exactly when some repo
/// failed.
pub proof fn law_update_counts_every_failure(outcomes: Seq<(String, Option<String>)>)
    ensures
        failures(Seq::<(String, Option<String>)>::empty()) == 0,
        forall|o: (String, Option<String>)| #[trigger] failures(outcomes.push(o))
            == failures(outcomes) + if o.1 is None { 1int } else { 0int },
        failures(outcomes) == outcomes.filter(|o: (String, Option<String>)| o.1 is None).len(),
        failures(outcomes) <= outcomes.len(),
        failures(outcomes) > 0 <==> exists|i: int| 0 <= i < outcomes.len() && outcomes[i].1 is None,
    decreases outcomes.len(),
{
    reveal(Seq::filter);
    assert forall|o: (String, Option<String>)| #[trigger] failures(outcomes.push(o))
        == failures(outcomes) + if o.1 is None { 1int } else { 0int } by {
        assert(outcomes.push(o).drop_last() =~= outcomes);
    }
    if outcomes.len() > 0 {
        let rest = outcomes.drop_last();
        law_update_counts_every_failure(rest);
        if failures(outcomes) > 0 {
            if outcomes.last().1 is None {
                assert(outcomes[outcomes.len() - 1].1 is None);
            } else {
                let i = choose|i: int| 0 <= i < rest.len() && rest[i].1 is None;
                assert(outcomes[i] == rest[i]);
            }
        }
        if exists|i: int| 0 <= i < outcomes.len() && outcomes[i].1 is None {
            let i = choose|i: int| 0 <= i < outcomes.len() && outcomes[i].1 is None;
            if i < rest.len() {
                assert(rest[i] == outcomes[i]);
            }
        }
    }
}

} // verus!
