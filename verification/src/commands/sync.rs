//! The `sync` command: the manifest's revisions, overridden by the lockfile's pins where
//! there is a lockfile, are checked out repo after repo, stopping at the first failure; the
//! new lockfile pins each repo that got there, and is written whether or not one failed.
use vstd::prelude::*;
use crate::workspace::lockfile::Lockfile;
use crate::workspace::manifest::{locked_repos, Manifest};
use crate::workspace::WorkspaceError;

verus! {

/// The pins that a list of resolved repos makes, in order.
pub open spec fn resolved_pins(resolved: Seq<(String, Result<String, WorkspaceError>)>) -> Map<Seq<char>, Seq<char>>
    decreases resolved.len(),
{
    if resolved.len() == 0 {
        Map::empty()
    } else {
        match resolved.last().1 {
            Ok(h) => resolved_pins(resolved.drop_last()).insert(resolved.last().0@, h@),
            Err(_) => resolved_pins(resolved.drop_last()),
        }
    }
}

/// The index of the first failed resolution, if any.
pub open spec fn first_failure(resolved: Seq<(String, Result<String, WorkspaceError>)>) -> Option<int> {
    if exists|i: int| 0 <= i < resolved.len() && resolved[i].1 is Err {
        Some(choose|i: int| 0 <= i < resolved.len() && resolved[i].1 is Err
            && forall|j: int| 0 <= j < i ==> resolved[j].1 is Ok)
    } else {
        None
    }
}

/// The manifest that `sync` works from: where a lockfile was read, its pins replace the
/// revisions of the repos it names; otherwise the manifest as it is.
pub fn plan(manifest: Manifest, lockfile: Option<Lockfile>) -> (r: Manifest)
    ensures
        match lockfile {
            Some(l) => r@ == locked_repos(manifest@, l@),
            None => r@ == manifest@,
        },
{
    let mut manifest = manifest;
    if let Some(mut l) = lockfile {
        manifest.apply_lock(&mut l);
    }
    manifest
}

/// A `sync` under way: the pins made so far, and the failure that stopped it, if any.
pub struct SyncRun {
    pub lockfile: Lockfile,
    pub failure: Option<WorkspaceError>,
}

impl SyncRun {
    /// A sync that has resolved nothing yet.
    pub fn new() -> (r: SyncRun)
        ensures
            r.lockfile@ == Map::<Seq<char>, Seq<char>>::empty(),
            r.failure is None,
    {
        SyncRun { lockfile: Lockfile::new(), failure: None }
    }

    /// Records how resolving the repo `name` went, and says whether the sync goes on: a
    /// resolved repo is pinned to its hash; the first failure stops the sync, and nothing
    /// is recorded after it.
    pub fn record(&mut self, name: String, outcome: Result<String, WorkspaceError>) -> (go_on: bool)
        ensures
            old(self).failure is Some ==> *final(self) == *old(self) && !go_on,
            old(self).failure is None ==> match outcome {
                Ok(h) => go_on && final(self).failure is None
                    && final(self).lockfile@ == old(self).lockfile@.insert(name@, h@),
                Err(e) => !go_on && final(self).failure == Some(e)
                    && final(self).lockfile@ == old(self).lockfile@,
            },
    {
        if self.failure.is_some() {
            return false;
        }
        match outcome {
            Ok(h) => {
                self.lockfile.insert(name, h);
                true
            },
            Err(e) => {
                self.failure = Some(e);
                false
            },
        }
    }

    /// The outcome of the sync: the new lockfile, pinning each repo resolved before it
    /// stopped, and the failure that stopped it, if any.
    pub fn finish(self) -> (r: (Lockfile, Result<(), WorkspaceError>))
        ensures
            r.0@ == self.lockfile@,
            match self.failure {
                Some(e) => r.1 == Err::<(), WorkspaceError>(e),
                None => r.1 is Ok,
            },
    {
        match self.failure {
            Some(e) => (self.lockfile, Err(e)),
            None => (self.lockfile, Ok(())),
        }
    }
}

/// The repos that a sync got through: those before the first failure, or all of them.
pub open spec fn synced_prefix(resolved: Seq<(String, Result<String, WorkspaceError>)>) -> Seq<(String, Result<String, WorkspaceError>)> {
    match first_failure(resolved) {
        Some(i) => resolved.take(i),
        None => resolved,
    }
}

/// The outcome of `sync`, given, for each repo in order, its name and how resolving it
/// went. A sync stops at the first failure, so the outcomes it hands over end there; any
/// outcome after the first failure is ignored. The result is the new lockfile, pinning each
/// repo resolved before the first failure to the hash it was checked out at, and the first
/// failure's error, if any.
pub fn run(resolved: Vec<(String, Result<String, WorkspaceError>)>) -> (r: (Lockfile, Result<(), WorkspaceError>))
    ensures
        r.0@ == resolved_pins(synced_prefix(resolved@)),
        match first_failure(resolved@) {
            Some(i) => r.1 matches Err(e) && resolved@[i].1 == Err::<String, WorkspaceError>(e),
            None => r.1 is Ok,
        },
{
    let ghost all = resolved@;
    let mut rest = resolved;
    let total = rest.len();
    let mut sync = SyncRun::new();
    let mut i: usize = 0;
    while rest.len() > 0
        invariant
            all == resolved@,
            all.len() == total,
            all.len() == i + rest@.len(),
            rest@ == all.subrange(i as int, all.len() as int),
            forall|j: int| 0 <= j < i ==> all[j].1 is Ok,
            sync.failure is None,
            sync.lockfile@ == resolved_pins(all.subrange(0, i as int)),
        decreases rest@.len(),
    {
        let ghost s = all.subrange(0, i + 1);
        assert(s.drop_last() =~= all.subrange(0, i as int));
        assert(rest@[0] == all[i as int]);
        let (name, outcome) = rest.remove(0);
        assert(outcome == all[i as int].1);
        let ghost failed = outcome is Err;
        let go_on = sync.record(name, outcome);
        if !go_on {
            proof {
                assert(failed);
                let c = choose|c: int| 0 <= c < all.len() && all[c].1 is Err
                    && forall|j: int| 0 <= j < c ==> all[j].1 is Ok;
                assert(0 <= c < all.len() && all[c].1 is Err && forall|j: int| 0 <= j < c ==> all[j].1 is Ok);
                assert(c == i);
                assert(first_failure(all) == Some(i as int));
                assert(all.take(i as int) =~= all.subrange(0, i as int));
            }
            return sync.finish();
        }
        assert(rest@ =~= all.subrange(i + 1, all.len() as int));
        i = i + 1;
    }
    assert(all.subrange(0, i as int) =~= all);
    proof {
        if first_failure(all) is Some {
            let c = choose|c: int| 0 <= c < all.len() && all[c].1 is Err
                && forall|j: int| 0 <= j < c ==> all[j].1 is Ok;
            assert(all[c].1 is Ok);
        }
    }
    sync.finish()
}

/// Whether no two resolutions are for the same repo name.
pub open spec fn resolved_names_unique(resolved: Seq<(String, Result<String, WorkspaceError>)>) -> bool {
    forall|i: int, j: int|
        0 <= i < resolved.len() && 0 <= j < resolved.len() && i != j ==> resolved[i].0@ != resolved[j].0@
}

/// What `resolved_pins` holds for a name.
proof fn lemma_resolved_pins(resolved: Seq<(String, Result<String, WorkspaceError>)>, n: Seq<char>)
    requires
        resolved_names_unique(resolved),
    ensures
        resolved_pins(resolved).contains_key(n) <==> exists|i: int|
            0 <= i < resolved.len() && resolved[i].0@ == n && resolved[i].1 is Ok,
        forall|i: int|
            0 <= i < resolved.len() && resolved[i].0@ == n && resolved[i].1 is Ok
                ==> resolved_pins(resolved)[n] == (resolved[i].1->Ok_0)@,
    decreases resolved.len(),
{
    if resolved.len() > 0 {
        let rest = resolved.drop_last();
        assert(resolved_names_unique(rest)) by {
            assert forall|i: int, j: int|
                0 <= i < rest.len() && 0 <= j < rest.len() && i != j implies rest[i].0@ != rest[j].0@ by {
                assert(rest[i] == resolved[i] && rest[j] == resolved[j]);
            }
        }
        lemma_resolved_pins(rest, n);
        let last = resolved.len() - 1;
        if resolved_pins(resolved).contains_key(n) {
            if !(resolved[last].0@ == n && resolved[last].1 is Ok) {
                let i = choose|i: int| 0 <= i < rest.len() && rest[i].0@ == n && rest[i].1 is Ok;
                assert(resolved[i] == rest[i]);
            }
        }
        assert forall|i: int| 0 <= i < resolved.len() && resolved[i].0@ == n && resolved[i].1 is Ok
            implies resolved_pins(resolved).contains_key(n) && resolved_pins(resolved)[n] == (resolved[i].1->Ok_0)@ by {
            if i < last {
                assert(resolved[i] == rest[i]);
                assert(resolved[last].0@ != n);
            }
        }
    }
}

/// The lockfile that `sync` writes pins every repo it got through (those before the first
/// failure, or all of them) to the hash it was checked out at, and no other repo: not the
/// one that failed, nor any after it. The failure it reports is the first one, every repo
/// before it having succeeded. (Repo names are unique, as the manifest's edits keep them.)
pub proof fn law_sync_pins_repos_before_first_failure(resolved: Seq<(String, Result<String, WorkspaceError>)>)
    requires
        resolved_names_unique(resolved),
    ensures
        ({
            let stop = match first_failure(resolved) {
                Some(i) => i,
                None => resolved.len() as int,
            };
            let pins = resolved_pins(synced_prefix(resolved));
            &&& 0 <= stop <= resolved.len()
            &&& stop < resolved.len() ==> resolved[stop].1 is Err
            &&& forall|i: int| 0 <= i < stop ==> (#[trigger] resolved[i]).1 is Ok
                && pins.contains_key(resolved[i].0@) && pins[resolved[i].0@] == (resolved[i].1->Ok_0)@
            &&& forall|i: int| stop <= i < resolved.len() ==> !pins.contains_key((#[trigger] resolved[i]).0@)
            &&& forall|n: Seq<char>| #[trigger] pins.contains_key(n) ==> exists|i: int|
                0 <= i < stop && resolved[i].0@ == n
        }),
{
    let stop = match first_failure(resolved) {
        Some(i) => i,
        None => resolved.len() as int,
    };
    if exists|i: int| 0 <= i < resolved.len() && resolved[i].1 is Err {
        lemma_first_failure_exists(resolved);
        let c = choose|c: int| 0 <= c < resolved.len() && resolved[c].1 is Err
            && forall|j: int| 0 <= j < c ==> resolved[j].1 is Ok;
        assert(stop == c);
    }
    assert forall|i: int| 0 <= i < stop implies (#[trigger] resolved[i]).1 is Ok by {}
    let prefix = synced_prefix(resolved);
    assert(prefix =~= resolved.take(stop));
    assert(resolved_names_unique(prefix)) by {
        assert forall|a: int, b: int|
            0 <= a < prefix.len() && 0 <= b < prefix.len() && a != b implies prefix[a].0@ != prefix[b].0@ by {
            assert(prefix[a] == resolved[a] && prefix[b] == resolved[b]);
        }
    }
    let pins = resolved_pins(prefix);
    assert forall|i: int| 0 <= i < stop implies (#[trigger] resolved[i]).1 is Ok
        && pins.contains_key(resolved[i].0@) && pins[resolved[i].0@] == (resolved[i].1->Ok_0)@ by {
        lemma_resolved_pins(prefix, resolved[i].0@);
        assert(prefix[i] == resolved[i]);
    }
    assert forall|i: int| stop <= i < resolved.len() implies !pins.contains_key((#[trigger] resolved[i]).0@) by {
        lemma_resolved_pins(prefix, resolved[i].0@);
        if pins.contains_key(resolved[i].0@) {
            let k = choose|k: int| 0 <= k < prefix.len() && prefix[k].0@ == resolved[i].0@ && prefix[k].1 is Ok;
            assert(prefix[k] == resolved[k]);
        }
    }
    assert forall|n: Seq<char>| #[trigger] pins.contains_key(n) implies exists|i: int|
        0 <= i < stop && resolved[i].0@ == n by {
        lemma_resolved_pins(prefix, n);
        let k = choose|k: int| 0 <= k < prefix.len() && prefix[k].0@ == n && prefix[k].1 is Ok;
        assert(prefix[k] == resolved[k]);
    }
}

/// Where some resolution failed, there is a first one to fail.
proof fn lemma_first_failure_exists(resolved: Seq<(String, Result<String, WorkspaceError>)>)
    requires
        exists|i: int| 0 <= i < resolved.len() && resolved[i].1 is Err,
    ensures
        exists|c: int| 0 <= c < resolved.len() && resolved[c].1 is Err
            && forall|j: int| 0 <= j < c ==> resolved[j].1 is Ok,
    decreases resolved.len(),
{
    let rest = resolved.drop_last();
    if exists|i: int| 0 <= i < rest.len() && rest[i].1 is Err {
        lemma_first_failure_exists(rest);
        let c = choose|c: int| 0 <= c < rest.len() && rest[c].1 is Err
            && forall|j: int| 0 <= j < c ==> rest[j].1 is Ok;
        assert(resolved[c] == rest[c]);
        assert forall|j: int| 0 <= j < c implies resolved[j].1 is Ok by {
            assert(resolved[j] == rest[j]);
        }
    } else {
        let c = resolved.len() - 1;
        let w = choose|i: int| 0 <= i < resolved.len() && resolved[i].1 is Err;
        if w < c {
            assert(rest[w] == resolved[w]);
        }
        assert forall|j: int| 0 <= j < c implies resolved[j].1 is Ok by {
            assert(rest[j] == resolved[j]);
        }
    }
}

} // verus!
