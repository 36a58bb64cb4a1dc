//! The manifest of a workspace: the repos that make it up, each under a name, and the edits
//! that the `manifest` command makes to it.
use vstd::prelude::*;
use crate::workspace::lockfile::{same_text, Lockfile};

verus! {

/// Represents a repo in a Chord workspace.
pub struct Repo {
    /// The URL to the repo, can be either SSH or HTTPS.
    pub remote: String,
    /// Name of folder where to clone the repo, also used as a way of referring
    /// to the repo from within the manifest for additional functionality.
    pub name: String,
    /// The revision to checkout, can be a hash or branch.
    pub revision: String,
    /// The directory to clone the repo to, defaults to the directory where
    /// the Chord manifest is located.
    pub location: Option<String>,
}

/// A repo of the manifest, as a mathematical value.
pub struct RepoView {
    pub remote: Seq<char>,
    pub name: Seq<char>,
    pub revision: Seq<char>,
    pub location: Option<Seq<char>>,
}

/// The view of an optional text.
pub open spec fn opt_view(o: Option<String>) -> Option<Seq<char>> {
    match o {
        Some(s) => Some(s@),
        None => None,
    }
}

impl View for Repo {
    type V = RepoView;

    open spec fn view(&self) -> RepoView {
        RepoView {
            remote: self.remote@,
            name: self.name@,
            revision: self.revision@,
            location: opt_view(self.location),
        }
    }
}

/// Represents the complete Chord manifest file.
pub struct Manifest {
    /// The list of repos to be included in the Chord workspace.
    pub repos: Vec<Repo>,
}

impl View for Manifest {
    type V = Seq<RepoView>;

    open spec fn view(&self) -> Seq<RepoView> {
        self.repos@.map_values(|r: Repo| r@)
    }
}

/// Whether some repo is named `n`.
pub open spec fn has_name(repos: Seq<RepoView>, n: Seq<char>) -> bool {
    exists|i: int| 0 <= i < repos.len() && repos[i].name == n
}

/// Whether `i` is the first repo named `n`.
pub open spec fn is_first_named(repos: Seq<RepoView>, n: Seq<char>, i: int) -> bool {
    &&& 0 <= i < repos.len()
    &&& repos[i].name == n
    &&& forall|j: int| 0 <= j < i ==> repos[j].name != n
}

/// The index of the first repo named `n`, where there is one.
pub open spec fn first_named(repos: Seq<RepoView>, n: Seq<char>) -> int {
    choose|i: int| is_first_named(repos, n, i)
}

/// Whether no two repos share a name.
pub open spec fn names_unique(repos: Seq<RepoView>) -> bool {
    forall|i: int, j: int|
        0 <= i < repos.len() && 0 <= j < repos.len() && i != j ==> repos[i].name != repos[j].name
}

/// The names of the repos.
pub open spec fn names_of(repos: Seq<RepoView>) -> Set<Seq<char>> {
    Set::new(|n: Seq<char>| has_name(repos, n))
}

/// The repo at `j` once the lockfile `lock` is applied: the first repo of a name that the
/// lockfile pins takes the pinned revision, every other repo is left as it is.
pub open spec fn locked_repo(repos: Seq<RepoView>, lock: Map<Seq<char>, Seq<char>>, j: int) -> RepoView {
    if lock.contains_key(repos[j].name) && is_first_named(repos, repos[j].name, j) {
        RepoView { revision: lock[repos[j].name], ..repos[j] }
    } else {
        repos[j]
    }
}

/// The repos once the lockfile `lock` is applied to them.
pub open spec fn locked_repos(repos: Seq<RepoView>, lock: Map<Seq<char>, Seq<char>>) -> Seq<RepoView> {
    Seq::new(repos.len(), |j: int| locked_repo(repos, lock, j))
}

/// The repo that an edit makes of `r`: each field given replaces the one it names.
pub open spec fn modified_repo(
    r: RepoView,
    new_name: Option<Seq<char>>,
    new_remote: Option<Seq<char>>,
    new_revision: Option<Seq<char>>,
    new_location: Option<Seq<char>>,
) -> RepoView {
    RepoView {
        name: match new_name {
            Some(n) => n,
            None => r.name,
        },
        remote: match new_remote {
            Some(v) => v,
            None => r.remote,
        },
        revision: match new_revision {
            Some(v) => v,
            None => r.revision,
        },
        location: match new_location {
            Some(v) => Some(v),
            None => r.location,
        },
    }
}

/// Why an edit of the manifest was refused.
pub enum ManifestError {
    /// A repo of that name is already in the manifest.
    RepoExists(String),
    /// No repo of that name is in the manifest.
    RepoNotFound(String),
}

/// There is at most one first repo of a name.
pub proof fn lemma_first_named_unique(repos: Seq<RepoView>, n: Seq<char>, i: int)
    requires
        is_first_named(repos, n, i),
    ensures
        first_named(repos, n) == i,
{
    let c = first_named(repos, n);
    assert(is_first_named(repos, n, c));
    if c < i {
        assert(repos[c].name != n);
    } else if i < c {
        assert(repos[i].name != n);
    }
}

fn clone_opt(o: &Option<String>) -> (r: Option<String>)
    ensures
        r == *o,
{
    match o {
        Some(s) => Some(s.clone()),
        None => None,
    }
}

impl Manifest {
    /// A manifest without repos.
    pub fn new() -> (r: Manifest)
        ensures
            r@ == Seq::<RepoView>::empty(),
    {
        let r = Manifest { repos: Vec::new() };
        assert(r@ =~= Seq::<RepoView>::empty());
        r
    }

    /// The index of the first repo named `name`, if any.
    pub fn position(&self, name: &str) -> (r: Option<usize>)
        ensures
            match r {
                Some(i) => is_first_named(self@, name@, i as int),
                None => !has_name(self@, name@),
            },
    {
        let mut i: usize = 0;
        while i < self.repos.len()
            invariant
                0 <= i <= self.repos@.len(),
                forall|j: int| 0 <= j < i ==> self@[j].name != name@,
            decreases self.repos@.len() - i,
        {
            if same_text(self.repos[i].name.as_str(), name) {
                return Some(i);
            }
            i = i + 1;
        }
        None
    }

    /// Adds a repo at the end of the manifest. Refused where a repo of that name is already
    /// in it.
    pub fn add_repo(
        &mut self,
        name: String,
        remote: String,
        revision: String,
        location: Option<String>,
    ) -> (r: Result<(), ManifestError>)
        ensures
            r is Err <==> has_name(old(self)@, name@),
            r matches Err(e) ==> e matches ManifestError::RepoExists(n) && n@ == name@,
            r is Err ==> final(self)@ == old(self)@,
            r is Ok ==> final(self)@ == old(self)@.push(
                RepoView {
                    remote: remote@,
                    name: name@,
                    revision: revision@,
                    location: opt_view(location),
                },
            ),
            names_unique(old(self)@) ==> names_unique(final(self)@),
    {
        if let Some(i) = self.position(name.as_str()) {
            return Err(ManifestError::RepoExists(name));
        }
        let ghost before = self@;
        let repo = Repo { remote, name, revision, location };
        self.repos.push(repo);
        assert(self@ =~= before.push(repo@));
        Ok(())
    }

    /// Removes the repo named `name` (the first one of that name). Refused where no repo
    /// of that name is in the manifest.
    pub fn remove_repo(&mut self, name: String) -> (r: Result<(), ManifestError>)
        ensures
            r is Ok <==> has_name(old(self)@, name@),
            r matches Err(e) ==> e matches ManifestError::RepoNotFound(n) && n@ == name@,
            r is Err ==> final(self)@ == old(self)@,
            r is Ok ==> final(self)@ == old(self)@.remove(first_named(old(self)@, name@)),
            names_unique(old(self)@) ==> names_unique(final(self)@),
    {
        match self.position(name.as_str()) {
            None => Err(ManifestError::RepoNotFound(name)),
            Some(i) => {
                let ghost before = self@;
                proof {
                    lemma_first_named_unique(before, name@, i as int);
                }
                self.repos.remove(i);
                assert(self@ =~= before.remove(i as int));
                proof {
                    if names_unique(before) {
                        assert forall|a: int, b: int|
                            0 <= a < self@.len() && 0 <= b < self@.len() && a != b implies self@[a].name
                            != self@[b].name by {
                            let a0 = if a < i { a } else { a + 1 };
                            let b0 = if b < i { b } else { b + 1 };
                            assert(self@[a] == before[a0]);
                            assert(self@[b] == before[b0]);
                        }
                    }
                }
                Ok(())
            },
        }
    }

    /// Edits the repo named `name` (the first one of that name): each field given replaces
    /// the one it names. Refused where no repo is named `name`, or where the new name is
    /// another repo's.
    pub fn modify_repo(
        &mut self,
        name: String,
        new_name: Option<String>,
        new_remote: Option<String>,
        new_revision: Option<String>,
        new_location: Option<String>,
    ) -> (r: Result<(), ManifestError>)
        ensures
            !has_name(old(self)@, name@) ==> (r matches Err(ManifestError::RepoNotFound(n)) && n@ == name@),
            has_name(old(self)@, name@) ==> match new_name {
                Some(nn) => if nn@ != name@ && has_name(old(self)@, nn@) {
                    (r matches Err(ManifestError::RepoExists(n)) && n@ == nn@)
                } else {
                    r is Ok
                },
                None => r is Ok,
            },
            r is Err ==> final(self)@ == old(self)@,
            r is Ok ==> final(self)@ == old(self)@.update(
                first_named(old(self)@, name@),
                modified_repo(
                    old(self)@[first_named(old(self)@, name@)],
                    opt_view(new_name),
                    opt_view(new_remote),
                    opt_view(new_revision),
                    opt_view(new_location),
                ),
            ),
            names_unique(old(self)@) ==> names_unique(final(self)@),
    {
        let i = match self.position(name.as_str()) {
            None => return Err(ManifestError::RepoNotFound(name)),
            Some(i) => i,
        };
        let ghost before = self@;
        proof {
            lemma_first_named_unique(before, name@, i as int);
        }
        if let Some(nn) = &new_name {
            if !same_text(nn.as_str(), name.as_str()) {
                if let Some(_) = self.position(nn.as_str()) {
                    return Err(ManifestError::RepoExists(nn.clone()));
                }
            }
        }
        let old_repo = &self.repos[i];
        let repo = Repo {
            name: match new_name {
                Some(n) => n,
                None => old_repo.name.clone(),
            },
            remote: match new_remote {
                Some(v) => v,
                None => old_repo.remote.clone(),
            },
            revision: match new_revision {
                Some(v) => v,
                None => old_repo.revision.clone(),
            },
            location: match new_location {
                Some(v) => Some(v),
                None => clone_opt(&old_repo.location),
            },
        };
        let ghost new_view = repo@;
        self.repos.set(i, repo);
        assert(self@ =~= before.update(i as int, new_view));
        proof {
            if names_unique(before) {
                assert forall|a: int, b: int|
                    0 <= a < self@.len() && 0 <= b < self@.len() && a != b implies self@[a].name
                    != self@[b].name by {
                    if a != i && b != i {
                        assert(self@[a] == before[a] && self@[b] == before[b]);
                    } else if a == i {
                        assert(self@[b] == before[b]);
                        assert(before[i as int].name == name@);
                    } else {
                        assert(self@[a] == before[a]);
                        assert(before[i as int].name == name@);
                    }
                }
            }
        }
        Ok(())
    }

    /// Updates the manifest with the revisions in the lockfile. This is a destructive
    /// action: each pin that a repo takes is removed from the lockfile, so that what stays
    /// there pins no repo of the manifest.
    pub fn apply_lock(&mut self, lockfile: &mut Lockfile)
        ensures
            final(self)@ == locked_repos(old(self)@, old(lockfile)@),
            final(lockfile)@ == old(lockfile)@.remove_keys(names_of(old(self)@)),
    {
        let ghost orig = self@;
        let ghost lock0 = lockfile@;
        let n = self.repos.len();
        let mut j: usize = 0;
        while j < n
            invariant
                n == self.repos@.len(),
                n == orig.len(),
                0 <= j <= n,
                forall|k: int| 0 <= k < j ==> self@[k] == locked_repo(orig, lock0, k),
                forall|k: int| j <= k < n ==> self@[k] == orig[k],
                lockfile@ == lock0.remove_keys(names_of(orig.take(j as int))),
            decreases n - j,
        {
            let ghost lock_before = lockfile@;
            let ghost name = orig[j as int].name;
            let taken = lockfile.remove(self.repos[j].name.as_str());
            proof {
                assert(lock_before.contains_key(name) == (lock0.contains_key(name) && is_first_named(orig, name, j as int))) by {
                    if has_name(orig.take(j as int), name) {
                        let k = choose|k: int| 0 <= k < j && orig.take(j as int)[k].name == name;
                        assert(orig[k].name == name);
                    }
                    if !is_first_named(orig, name, j as int) {
                        let k = choose|k: int| 0 <= k < j && orig[k].name == name;
                        assert(orig.take(j as int)[k].name == name);
                        assert(names_of(orig.take(j as int)).contains(name));
                    }
                }
            }
            if let Some(rev) = taken {
                let old_repo = &self.repos[j];
                let repo = Repo {
                    remote: old_repo.remote.clone(),
                    name: old_repo.name.clone(),
                    revision: rev,
                    location: clone_opt(&old_repo.location),
                };
                self.repos.set(j, repo);
            }
            proof {
                let t1 = orig.take(j + 1);
                let t0 = orig.take(j as int);
                assert(names_of(t1) =~= names_of(t0).insert(name)) by {
                    assert forall|m: Seq<char>| names_of(t1).contains(m) == names_of(t0).insert(name).contains(m) by {
                        if has_name(t1, m) {
                            let k = choose|k: int| 0 <= k < t1.len() && t1[k].name == m;
                            if k < j {
                                assert(t0[k].name == m);
                            }
                        }
                        if has_name(t0, m) {
                            let k = choose|k: int| 0 <= k < t0.len() && t0[k].name == m;
                            assert(t1[k].name == m);
                        }
                        if m == name {
                            assert(t1[j as int].name == m);
                        }
                    }
                }
                assert(lockfile@ =~= lock0.remove_keys(names_of(orig.take(j + 1))));
            }
            j = j + 1;
        }
        proof {
            assert(orig.take(n as int) =~= orig);
            assert(self@ =~= locked_repos(orig, lock0));
        }
    }
}

/// Applying a lockfile twice does no more than applying it once: the first application
/// takes out of the lockfile every pin of a repo of the manifest, so the second finds none.
pub proof fn law_apply_lock_twice(repos: Seq<RepoView>, lock: Map<Seq<char>, Seq<char>>)
    ensures
        locked_repos(locked_repos(repos, lock), lock.remove_keys(names_of(repos)))
            == locked_repos(repos, lock),
        names_of(locked_repos(repos, lock)) == names_of(repos),
{
    let once = locked_repos(repos, lock);
    let rest = lock.remove_keys(names_of(repos));
    assert forall|j: int| 0 <= j < once.len() implies #[trigger] once[j].name == repos[j].name by {}
    assert(names_of(once) =~= names_of(repos)) by {
        assert forall|m: Seq<char>| names_of(once).contains(m) == names_of(repos).contains(m) by {
            if has_name(once, m) {
                let k = choose|k: int| 0 <= k < once.len() && once[k].name == m;
                assert(repos[k].name == m);
            }
            if has_name(repos, m) {
                let k = choose|k: int| 0 <= k < repos.len() && repos[k].name == m;
                assert(once[k].name == m);
            }
        }
    }
    assert forall|j: int| 0 <= j < once.len() implies locked_repo(once, rest, j) == once[j] by {
        assert(has_name(repos, repos[j].name));
        assert(names_of(repos).contains(once[j].name));
        assert(!rest.contains_key(once[j].name));
    }
    assert(locked_repos(once, rest) =~= once);
}

/// Modifying a repo replaces exactly the fields given: a field given takes the new value,
/// a field not given keeps the old one.
pub proof fn law_modify_replaces_only_given_fields(
    r: RepoView,
    new_name: Option<Seq<char>>,
    new_remote: Option<Seq<char>>,
    new_revision: Option<Seq<char>>,
    new_location: Option<Seq<char>>,
)
    ensures
        ({
            let m = modified_repo(r, new_name, new_remote, new_revision, new_location);
            &&& new_name is None ==> m.name == r.name
            &&& new_name matches Some(n) ==> m.name == n
            &&& new_remote is None ==> m.remote == r.remote
            &&& new_remote matches Some(v) ==> m.remote == v
            &&& new_revision is None ==> m.revision == r.revision
            &&& new_revision matches Some(v) ==> m.revision == v
            &&& new_location is None ==> m.location == r.location
            &&& new_location matches Some(v) ==> m.location == Some(v)
        }),
        modified_repo(r, None, None, None, None) == r,
{
}

/// Applying a lockfile gives the first repo of each name that the lockfile pins exactly the
/// pinned revision, whatever its remote and location, and changes nothing else: the
/// repos stay the same in number and order, with the same names, remotes and locations,
/// and a repo whose name is not pinned (or that is not the first of its name) keeps its
/// revision.
pub proof fn law_apply_lock_pins_revisions(repos: Seq<RepoView>, lock: Map<Seq<char>, Seq<char>>)
    ensures
        locked_repos(repos, lock).len() == repos.len(),
        forall|j: int| 0 <= j < repos.len() ==> {
            let a = #[trigger] locked_repos(repos, lock)[j];
            &&& a.name == repos[j].name
            &&& a.remote == repos[j].remote
            &&& a.location == repos[j].location
            &&& (lock.contains_key(repos[j].name) && is_first_named(repos, repos[j].name, j))
                ==> a.revision == lock[repos[j].name]
            &&& !(lock.contains_key(repos[j].name) && is_first_named(repos, repos[j].name, j))
                ==> a.revision == repos[j].revision
        },
        names_unique(repos) ==> forall|j: int| 0 <= j < repos.len() && lock.contains_key(repos[j].name)
            ==> (#[trigger] locked_repos(repos, lock)[j]).revision == lock[repos[j].name],
{
    if names_unique(repos) {
        assert forall|j: int| 0 <= j < repos.len() && lock.contains_key(repos[j].name)
            implies (#[trigger] locked_repos(repos, lock)[j]).revision == lock[repos[j].name] by {
            assert(is_first_named(repos, repos[j].name, j)) by {
                assert forall|k: int| 0 <= k < j implies repos[k].name != repos[j].name by {}
            }
        }
    }
}

/// Removing a repo undoes adding it: where no repo of the manifest is named `r.name`,
/// adding `r` and then removing that name gives back the manifest as it was.
pub proof fn law_remove_undoes_add(repos: Seq<RepoView>, r: RepoView)
    requires
        !has_name(repos, r.name),
    ensures
        has_name(repos.push(r), r.name),
        repos.push(r).remove(first_named(repos.push(r), r.name)) == repos,
{
    let s = repos.push(r);
    assert(s[repos.len() as int].name == r.name);
    assert(is_first_named(s, r.name, repos.len() as int)) by {
        assert forall|j: int| 0 <= j < repos.len() implies s[j].name != r.name by {
            assert(s[j] == repos[j]);
        }
    }
    lemma_first_named_unique(s, r.name, repos.len() as int);
    assert(s.remove(repos.len() as int) =~= repos);
}

} // verus!
