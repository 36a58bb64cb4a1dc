//! The lockfile: the revision, as a commit hash, that each repo of the workspace is pinned to.
use vstd::prelude::*;

verus! {

/// Whether two texts are the same.
pub fn same_text(a: &str, b: &str) -> (r: bool)
    ensures
        r == (a@ == b@),
{
    let x: String = a.to_owned();
    let y: String = b.to_owned();
    x == y
}

/// Whether no key occurs twice among `entries`.
pub open spec fn keys_unique(entries: Seq<(String, String)>) -> bool {
    forall|i: int, j: int|
        0 <= i < entries.len() && 0 <= j < entries.len() && i != j ==> entries[i].0@ != entries[j].0@
}

/// Whether some entry has the key `k`.
pub open spec fn has_key(entries: Seq<(String, String)>, k: Seq<char>) -> bool {
    exists|i: int| 0 <= i < entries.len() && entries[i].0@ == k
}

/// The map from repo names to revisions that `entries` hold.
pub open spec fn entries_map(entries: Seq<(String, String)>) -> Map<Seq<char>, Seq<char>> {
    Map::new(
        |k: Seq<char>| has_key(entries, k),
        |k: Seq<char>| entries[choose|i: int| 0 <= i < entries.len() && entries[i].0@ == k].1@,
    )
}

/// With unique keys, the entry at `i` is what the map holds for its key.
pub proof fn lemma_entry_in_map(entries: Seq<(String, String)>, i: int)
    requires
        keys_unique(entries),
        0 <= i < entries.len(),
    ensures
        entries_map(entries).contains_key(entries[i].0@),
        entries_map(entries)[entries[i].0@] == entries[i].1@,
{
    let k = entries[i].0@;
    assert(has_key(entries, k));
    let c = choose|c: int| 0 <= c < entries.len() && entries[c].0@ == k;
    assert(c == i);
}

/// Represents the complete Chord lockfile: for each repo, by its name as in the manifest, the
/// revision to pin the repo to. No name occurs twice.
pub struct Lockfile {
    entries: Vec<(String, String)>,
}

impl View for Lockfile {
    type V = Map<Seq<char>, Seq<char>>;

    closed spec fn view(&self) -> Map<Seq<char>, Seq<char>> {
        entries_map(self.entries@)
    }
}

/// What pinning `k` to `v` makes of the lockfile `before`: `after` holds `v` for `k` and
/// every other pin as it was; a new name comes last in the order of the pins, a name that
/// was pinned keeps its place.
pub open spec fn pinned(before: Lockfile, after: Lockfile, k: Seq<char>, v: Seq<char>) -> bool {
    &&& after@ == before@.insert(k, v)
    &&& after.names() == if before@.contains_key(k) {
        before.names()
    } else {
        before.names().push(k)
    }
}

/// What taking the pin of `k` out of the lockfile `before` makes of it: `after` has every
/// other pin, in the same order.
pub open spec fn unpinned(before: Lockfile, after: Lockfile, k: Seq<char>) -> bool {
    &&& after@ == before@.remove(k)
    &&& after.names() == before.names().remove_value(k)
}

impl Lockfile {
    #[verifier::type_invariant]
    closed spec fn inv(self) -> bool {
        keys_unique(self.entries@)
    }

    /// The names of the pinned repos, in the order they were first pinned.
    pub closed spec fn names(self) -> Seq<Seq<char>> {
        self.entries@.map_values(|e: (String, String)| e.0@)
    }

    /// The names of the pins are the keys of the lockfile.
    pub proof fn lemma_names_are_keys(self, n: Seq<char>)
        ensures
            self.names().contains(n) <==> self@.contains_key(n),
    {
        if self.names().contains(n) {
            let i = choose|i: int| 0 <= i < self.names().len() && self.names()[i] == n;
            assert(self.entries@[i].0@ == n);
        }
        if self@.contains_key(n) {
            let i = choose|i: int| 0 <= i < self.entries@.len() && self.entries@[i].0@ == n;
            assert(self.names()[i] == n);
        }
    }

    /// The index of the entry for `k`, if there is one.
    fn find(&self, k: &str) -> (r: Option<usize>)
        ensures
            match r {
                Some(i) => i < self.entries@.len() && self.entries@[i as int].0@ == k@,
                None => !has_key(self.entries@, k@),
            },
    {
        let mut i: usize = 0;
        while i < self.entries.len()
            invariant
                0 <= i <= self.entries@.len(),
                forall|j: int| 0 <= j < i ==> self.entries@[j].0@ != k@,
            decreases self.entries@.len() - i,
        {
            if same_text(self.entries[i].0.as_str(), k) {
                return Some(i);
            }
            i = i + 1;
        }
        None
    }

    /// An empty lockfile.
    pub fn new() -> (r: Self)
        ensures
            r@ == Map::<Seq<char>, Seq<char>>::empty(),
            r.names() == Seq::<Seq<char>>::empty(),
    {
        let r = Lockfile { entries: Vec::new() };
        assert(r@ =~= Map::<Seq<char>, Seq<char>>::empty());
        assert(r.names() =~= Seq::<Seq<char>>::empty());
        r
    }

    /// Pins the repo named `k` to the revision `v`, in place of any earlier pin.
    pub fn insert(&mut self, k: String, v: String)
        ensures
            pinned(*old(self), *final(self), k@, v@),
    {
        proof {
            use_type_invariant(&*self);
        }
        let ghost before = self.entries@;
        match self.find(k.as_str()) {
            Some(i) => {
                let mut entries: Vec<(String, String)> = Vec::new();
                std::mem::swap(&mut entries, &mut self.entries);
                entries.set(i, (k, v));
                proof {
                    let after = entries@;
                    assert(keys_unique(after)) by {
                        assert forall|a: int, b: int|
                            0 <= a < after.len() && 0 <= b < after.len() && a != b implies after[a].0@ != after[b].0@ by {
                            if a != i && b != i {
                                assert(after[a] == before[a] && after[b] == before[b]);
                            } else if a == i {
                                assert(after[b] == before[b]);
                                assert(before[i as int].0@ == k@);
                            } else {
                                assert(after[a] == before[a]);
                                assert(before[i as int].0@ == k@);
                            }
                        }
                    }
                    assert(entries_map(after) =~= entries_map(before).insert(k@, v@)) by {
                        assert forall|key: Seq<char>| #[trigger] has_key(after, key) == (has_key(before, key) || key == k@) by {
                            if has_key(before, key) {
                                let j = choose|j: int| 0 <= j < before.len() && before[j].0@ == key;
                                assert(after[j].0@ == key);
                            }
                            if has_key(after, key) {
                                let j = choose|j: int| 0 <= j < after.len() && after[j].0@ == key;
                                assert(before[j].0@ == key);
                            }
                        }
                        assert forall|key: Seq<char>| has_key(after, key) implies entries_map(after)[key] == entries_map(before).insert(k@, v@)[key] by {
                            let j = choose|j: int| 0 <= j < after.len() && after[j].0@ == key;
                            lemma_entry_in_map(after, j);
                            if j != i {
                                lemma_entry_in_map(before, j);
                            }
                        }
                    }
                    lemma_entry_in_map(before, i as int);
                    assert(after.map_values(|e: (String, String)| e.0@) =~= before.map_values(|e: (String, String)| e.0@));
                }
                self.entries = entries;
            },
            None => {
                let mut entries: Vec<(String, String)> = Vec::new();
                std::mem::swap(&mut entries, &mut self.entries);
                entries.push((k, v));
                proof {
                    let after = entries@;
                    assert(keys_unique(after)) by {
                        assert forall|a: int, b: int|
                            0 <= a < after.len() && 0 <= b < after.len() && a != b implies after[a].0@ != after[b].0@ by {
                            if a < before.len() && b < before.len() {
                                assert(after[a] == before[a] && after[b] == before[b]);
                            } else if a < before.len() {
                                assert(after[a] == before[a]);
                            } else {
                                assert(after[b] == before[b]);
                            }
                        }
                    }
                    assert(entries_map(after) =~= entries_map(before).insert(k@, v@)) by {
                        assert forall|key: Seq<char>| #[trigger] has_key(after, key) == (has_key(before, key) || key == k@) by {
                            if has_key(before, key) {
                                let j = choose|j: int| 0 <= j < before.len() && before[j].0@ == key;
                                assert(after[j].0@ == key);
                            }
                            assert(after[before.len() as int].0@ == k@);
                        }
                        assert forall|key: Seq<char>| has_key(after, key) implies entries_map(after)[key] == entries_map(before).insert(k@, v@)[key] by {
                            let j = choose|j: int| 0 <= j < after.len() && after[j].0@ == key;
                            lemma_entry_in_map(after, j);
                            if j < before.len() {
                                lemma_entry_in_map(before, j);
                            }
                        }
                    }
                    assert(!entries_map(before).contains_key(k@));
                    assert(after.map_values(|e: (String, String)| e.0@) =~= before.map_values(|e: (String, String)| e.0@).push(k@));
                }
                self.entries = entries;
            },
        }
    }

    /// The revision that the repo named `k` is pinned to, if any.
    pub fn get(&self, k: &str) -> (r: Option<&String>)
        ensures
            r is Some <==> self@.contains_key(k@),
            r matches Some(v) ==> v@ == self@[k@],
    {
        proof {
            use_type_invariant(self);
        }
        match self.find(k) {
            Some(i) => {
                proof {
                    lemma_entry_in_map(self.entries@, i as int);
                }
                Some(&self.entries[i].1)
            },
            None => None,
        }
    }

    /// Takes the pin of the repo named `k` out of the lockfile and returns its revision.
    pub fn remove(&mut self, k: &str) -> (r: Option<String>)
        ensures
            unpinned(*old(self), *final(self), k@),
            r is Some <==> old(self)@.contains_key(k@),
            r matches Some(v) ==> v@ == old(self)@[k@],
    {
        proof {
            use_type_invariant(&*self);
        }
        let ghost before = self.entries@;
        match self.find(k) {
            Some(i) => {
                proof {
                    lemma_entry_in_map(before, i as int);
                }
                let mut entries: Vec<(String, String)> = Vec::new();
                std::mem::swap(&mut entries, &mut self.entries);
                let (_, v) = entries.remove(i);
                proof {
                    let after = entries@;
                    assert(keys_unique(after)) by {
                        assert forall|a: int, b: int|
                            0 <= a < after.len() && 0 <= b < after.len() && a != b implies after[a].0@ != after[b].0@ by {
                            let a0 = if a < i { a } else { a + 1 };
                            let b0 = if b < i { b } else { b + 1 };
                            assert(after[a] == before[a0]);
                            assert(after[b] == before[b0]);
                        }
                    }
                    assert(entries_map(after) =~= entries_map(before).remove(k@)) by {
                        assert forall|key: Seq<char>| #[trigger] has_key(after, key) == (has_key(before, key) && key != k@) by {
                            if has_key(after, key) {
                                let j = choose|j: int| 0 <= j < after.len() && after[j].0@ == key;
                                let j0 = if j < i { j } else { j + 1 };
                                assert(after[j] == before[j0]);
                            }
                            if has_key(before, key) && key != k@ {
                                let j = choose|j: int| 0 <= j < before.len() && before[j].0@ == key;
                                let j1 = if j < i { j } else { j - 1 };
                                assert(j != i);
                                assert(after[j1] == before[j]);
                            }
                        }
                        assert forall|key: Seq<char>| has_key(after, key) implies entries_map(after)[key] == entries_map(before).remove(k@)[key] by {
                            let j = choose|j: int| 0 <= j < after.len() && after[j].0@ == key;
                            let j0 = if j < i { j } else { j + 1 };
                            assert(after[j] == before[j0]);
                            lemma_entry_in_map(after, j);
                            lemma_entry_in_map(before, j0);
                        }
                    }
                    let nb = before.map_values(|e: (String, String)| e.0@);
                    nb.index_of_first_ensures(k@);
                    assert(nb[i as int] == k@);
                    assert(nb.contains(k@));
                    let f = nb.index_of_first(k@)->0;
                    assert(f == i) by {
                        if f != i {
                            assert(before[f].0@ == before[i as int].0@);
                        }
                    }
                    assert(after.map_values(|e: (String, String)| e.0@) =~= nb.remove(i as int));
                }
                self.entries = entries;
                Some(v)
            },
            None => {
                proof {
                    assert(entries_map(before) =~= entries_map(before).remove(k@));
                    let nb = before.map_values(|e: (String, String)| e.0@);
                    nb.index_of_first_ensures(k@);
                    assert(!nb.contains(k@)) by {
                        if nb.contains(k@) {
                            let j = choose|j: int| 0 <= j < nb.len() && nb[j] == k@;
                            assert(before[j].0@ == k@);
                        }
                    }
                }
                None
            },
        }
    }

    /// The pins, one entry per repo, in the order they were made.
    pub fn entries(&self) -> (r: &Vec<(String, String)>)
        ensures
            keys_unique(r@),
            entries_map(r@) == self@,
            r@.map_values(|e: (String, String)| e.0@) == self.names(),
    {
        proof {
            use_type_invariant(self);
        }
        &self.entries
    }
}

/// A read gives back the last write: after pinning `k` to `v`, the lockfile holds `v` for
/// `k`, and every other pin is as it was.
pub proof fn law_get_after_insert(before: Lockfile, after: Lockfile, k: Seq<char>, v: Seq<char>, other: Seq<char>)
    requires
        pinned(before, after, k, v),
    ensures
        after@.contains_key(k),
        after@[k] == v,
        other != k ==> (after@.contains_key(other) == before@.contains_key(other)),
        other != k && before@.contains_key(other) ==> after@[other] == before@[other],
        after.names().contains(k),
{
    after.lemma_names_are_keys(k);
}

/// Pinning again a repo that is pinned changes its revision only: the same repos stay
/// pinned, in the same order.
pub proof fn law_repin_keeps_order(before: Lockfile, after: Lockfile, k: Seq<char>, v: Seq<char>)
    requires
        pinned(before, after, k, v),
        before@.contains_key(k),
    ensures
        after.names() == before.names(),
        after@.dom() == before@.dom(),
{
    assert(after@.dom() =~= before@.dom());
}

/// Taking out a pin undoes making it: where `k` was not pinned, pinning it and then
/// removing it gives back the lockfile as it was, its pins in the same order.
pub proof fn law_remove_undoes_insert(before: Lockfile, middle: Lockfile, after: Lockfile, k: Seq<char>, v: Seq<char>)
    requires
        !before@.contains_key(k),
        pinned(before, middle, k, v),
        unpinned(middle, after, k),
    ensures
        after@ == before@,
        after.names() == before.names(),
        middle@[k] == v,
{
    assert(after@ =~= before@);
    before.lemma_names_are_keys(k);
    let s = before.names().push(k);
    s.index_of_first_ensures(k);
    assert(s.contains(k)) by {
        assert(s[before.names().len() as int] == k);
    }
    let f = s.index_of_first(k)->0;
    assert(f == before.names().len()) by {
        if f < before.names().len() {
            assert(s[f] == before.names()[f]);
            assert(before.names().contains(k));
        }
    }
    assert(s.remove(f) =~= before.names());
}

} // verus!
