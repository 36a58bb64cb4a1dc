//! Path helpers of a Chord workspace and the search for its top directory.
use vstd::prelude::*;

verus! {

/// Whether `p`, read as a path of the target platform, is absolute.
pub uninterp spec fn path_is_absolute(p: Seq<char>) -> bool;

/// The path that `std::path::Path::join` makes of `base` and `seg` on the target platform.
pub uninterp spec fn joined_path(base: Seq<char>, seg: Seq<char>) -> Seq<char>;

/// The parent that `std::path::Path::parent` gives of `p` on the target platform.
pub uninterp spec fn parent_path(p: Seq<char>) -> Option<Seq<char>>;

/// Whether the text of a path shows, on every platform that std documents, that the path is
/// not absolute: it begins with `.`, or it holds no `/`, `\\` or `:` (so it has neither a
/// root nor a prefix).
pub open spec fn plainly_relative(p: Seq<char>) -> bool {
    ||| p.len() > 0 && p[0] == '.'
    ||| forall|i: int| 0 <= i < p.len() ==> #[trigger] p[i] != '/' && p[i] != '\\' && p[i] != ':'
}

/// Calls `std::path::Path::is_absolute`. Trusted: the answer is `path_is_absolute` of the text,
/// and a path whose text is `plainly_relative` is not absolute (an absolute path has a root,
/// and on Windows a prefix as well; neither can be written without `/`, `\\` or `:`, nor
/// begin with `.`).
#[verifier::external_body]
pub fn is_absolute_path(p: &str) -> (r: bool)
    ensures
        r == path_is_absolute(p@),
        plainly_relative(p@) ==> !r,
{
    std::path::Path::new(p).is_absolute()
}

/// Calls `std::path::Path::join`. Trusted: the joined path is `joined_path` of the two texts.
#[verifier::external_body]
pub fn join_path(base: &str, seg: &str) -> (r: String)
    ensures
        r@ == joined_path(base@, seg@),
{
    std::path::Path::new(base).join(seg).to_string_lossy().into_owned()
}

/// Calls `std::path::Path::parent`. Trusted: the result is `parent_path` of the text, and a
/// parent, being the path without its last component, is strictly shorter than the path.
#[verifier::external_body]
pub fn parent_of(p: &str) -> (r: Option<String>)
    ensures
        r matches Some(q) ==> parent_path(p@) == Some(q@) && q@.len() < p@.len(),
        r is None ==> parent_path(p@) is None,
{
    match std::path::Path::new(p).parent() {
        Some(q) => Some(q.to_string_lossy().into_owned()),
        None => None,
    }
}

/// The directories where the search for a workspace's top directory looks, in order:
/// `start` itself, then each of its parents up to the root.
pub open spec fn ancestors(start: Seq<char>) -> Seq<Seq<char>>
    decreases start.len(),
{
    match parent_path(start) {
        Some(q) => if q.len() < start.len() {
            seq![start] + ancestors(q)
        } else {
            seq![start]
        },
        None => seq![start],
    }
}

/// The index of the first probe that found a manifest, if any.
pub open spec fn first_found(probes: Seq<(String, bool)>) -> Option<int> {
    if exists|i: int| 0 <= i < probes.len() && probes[i].1 {
        Some(choose|i: int| 0 <= i < probes.len() && probes[i].1 && forall|j: int| 0 <= j < i ==> !probes[j].1)
    } else {
        None
    }
}

/// Name of the manifest file that marks a workspace's top directory.
pub fn manifest_file_name() -> (r: &'static str)
    ensures
        r@ == "chord.yaml"@,
{
    "chord.yaml"
}

/// Name of the lockfile kept in a workspace's top directory.
pub fn lockfile_file_name() -> (r: &'static str)
    ensures
        r@ == "chord.lock.yaml"@,
{
    "chord.lock.yaml"
}

/// Path of the manifest file of the workspace whose top directory is `dir`.
pub fn manifest_path(dir: &str) -> (r: String)
    ensures
        r@ == joined_path(dir@, "chord.yaml"@),
{
    join_path(dir, manifest_file_name())
}

/// Path of the lockfile of the workspace whose top directory is `dir`.
pub fn lockfile_path(dir: &str) -> (r: String)
    ensures
        r@ == joined_path(dir@, "chord.lock.yaml"@),
{
    join_path(dir, lockfile_file_name())
}

/// The directories to probe for a manifest, from `start` up to the root: `start` and then
/// its parents, each one shorter than the one before.
pub fn top_dir_candidates(start: &str) -> (r: Vec<String>)
    ensures
        r@.map_values(|s: String| s@) == ancestors(start@),
{
    let mut out: Vec<String> = Vec::new();
    let mut current: String = start.to_owned();
    let ghost mut done: Seq<Seq<char>> = Seq::empty();
    loop
        invariant
            out@.map_values(|s: String| s@) == done,
            done + ancestors(current@) == ancestors(start@),
        decreases current@.len(),
    {
        let next = parent_of(current.as_str());
        proof {
            done = done.push(current@);
        }
        let cur_copy = current.clone();
        out.push(cur_copy);
        match next {
            Some(q) => {
                assert(done + ancestors(q@) == ancestors(start@)) by {
                    assert(ancestors(current@) == seq![current@] + ancestors(q@));
                    assert(done.drop_last() + (seq![current@] + ancestors(q@)) =~= done + ancestors(q@));
                }
                assert(out@.map_values(|s: String| s@) =~= done);
                current = q;
            },
            None => {
                assert(ancestors(current@) == seq![current@]);
                assert(out@.map_values(|s: String| s@) =~= done);
                assert(done =~= done.drop_last() + seq![current@]);
                return out;
            },
        }
    }
}

/// The top directory of a workspace, given the candidate directories in search order, each
/// paired with whether a manifest file was found in it: the first one where it was found,
/// or `None` when the search reached the root without finding one.
pub fn get_top_dir(probes: &Vec<(String, bool)>) -> (r: Option<String>)
    ensures
        match first_found(probes@) {
            Some(i) => r matches Some(d) && d == probes@[i].0,
            None => r is None,
        },
{
    let mut i: usize = 0;
    while i < probes.len()
        invariant
            0 <= i <= probes@.len(),
            forall|j: int| 0 <= j < i ==> !probes@[j].1,
        decreases probes@.len() - i,
    {
        if probes[i].1 {
            let r = probes[i].0.clone();
            proof {
                let k = first_found(probes@);
                assert(probes@[i as int].1);
                let c = choose|c: int| 0 <= c < probes@.len() && probes@[c].1 && forall|j: int| 0 <= j < c ==> !probes@[j].1;
                assert(0 <= c < probes@.len() && probes@[c].1 && forall|j: int| 0 <= j < c ==> !probes@[j].1);
                assert(c == i);
            }
            return Some(r);
        }
        i = i + 1;
    }
    None
}

} // verus!
