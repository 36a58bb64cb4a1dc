//! The command line of `chord`: its commands and their arguments, and the check that the
//! text arguments are not blank.
use vstd::prelude::*;

verus! {

/// The parsed command line.
pub struct Cli {
    pub command: Commands,
}

/// The commands of `chord`.
pub enum Commands {
    /// Initializes the chord manifest directory and file, in `path`.
    Init { path: String },
    /// Checks the status of the chord workspace against the manifest.
    Status,
    /// Prints the chord workspace root, searching from `path`.
    Topdir { path: String },
    /// Clones missing repos, fetches, and checks out to whatever is in the lockfile,
    /// defaults to the chord manifest if there is no lockfile.
    Sync,
    /// Performs the same operations as sync, using the manifest whether or not there is
    /// a lockfile.
    Update,
    /// Runs a user provided command in each repo in the chord workspace.
    Forall { command: Vec<String> },
    /// Modifies the manifest based on the subcommand specified.
    Manifest(ManifestOps),
}

/// The subcommands of `chord manifest`.
pub enum ManifestOps {
    /// Adds a new repo to the manifest.
    Add { name: String, remote: String, revision: String, location: Option<String> },
    /// Deletes a repo from the manifest.
    Remove { name: String },
    /// Modifies a repo of the manifest.
    Modify {
        name: String,
        new_name: Option<String>,
        new_remote: Option<String>,
        new_revision: Option<String>,
        new_location: Option<String>,
    },
}

/// Whether `c` has the Unicode `White_Space` property (the property that
/// `char::is_whitespace` and `str::trim` go by): the code points U+0009 to U+000D, U+0020,
/// U+0085, U+00A0, U+1680, U+2000 to U+200A, U+2028, U+2029, U+202F, U+205F and U+3000.
pub open spec fn unicode_white_space(c: char) -> bool {
    let u = c as u32;
    ||| 0x9 <= u <= 0xd
    ||| u == 0x20
    ||| u == 0x85
    ||| u == 0xa0
    ||| u == 0x1680
    ||| 0x2000 <= u <= 0x200a
    ||| u == 0x2028
    ||| u == 0x2029
    ||| u == 0x202f
    ||| u == 0x205f
    ||| u == 0x3000
}

/// Whether `c` is white space.
pub fn is_white(c: char) -> (r: bool)
    ensures
        r == unicode_white_space(c),
{
    let u = c as u32;
    (0x9 <= u && u <= 0xd) || u == 0x20 || u == 0x85 || u == 0xa0 || u == 0x1680
        || (0x2000 <= u && u <= 0x200a) || u == 0x2028 || u == 0x2029 || u == 0x202f
        || u == 0x205f || u == 0x3000
}

/// Whether a text is blank: all of it white space (so the empty text is blank too).
pub open spec fn is_blank(s: Seq<char>) -> bool {
    forall|i: int| 0 <= i < s.len() ==> unicode_white_space(#[trigger] s[i])
}

/// Accepts an argument that is not blank, as it is; refuses a blank one.
pub fn non_empty_string(s: &str) -> (r: Result<String, String>)
    ensures
        r is Err <==> is_blank(s@),
        r matches Ok(t) ==> t@ == s@,
        r matches Err(m) ==> m@ == "value cannot be blank"@,
{
    let n = s.unicode_len();
    let mut i: usize = 0;
    while i < n
        invariant
            n == s@.len(),
            0 <= i <= n,
            forall|j: int| 0 <= j < i ==> unicode_white_space(#[trigger] s@[j]),
        decreases n - i,
    {
        if !is_white(s.get_char(i)) {
            return Ok(s.to_owned());
        }
        i = i + 1;
    }
    Err("value cannot be blank".to_owned())
}

} // verus!
