//! The manifest as written by hand, before its entries are checked and completed with defaults.
use vstd::prelude::*;

verus! {

/// Represents the complete Chord manifest file.
pub struct Manifest {
    /// The list of repos to be included in the Chord workspace.
    pub repos: Vec<Repo>,
}

/// Represents a repo in a Chord workspace, as the manifest states it.
pub struct Repo {
    /// The URL to the repo, can be either SSH or HTTPS.
    pub remote: String,
    /// Name of folder where to clone the repo, also used as a way of referring
    /// to the repo from within the manifest. Defaults to the name of the repo
    /// extracted from the remote.
    pub name: Option<String>,
    /// The directory to clone the repo to, defaults to the directory where
    /// the Chord manifest is located.
    pub location: Option<String>,
    /// The revision to checkout, can be a hash, tag or branch. Defaults to main.
    pub rev: Option<String>,
}

/// A revision of a repo, by the kind of reference that names it.
pub enum Rev {
    Tag(String),
    Hash(String),
    Branch(String),
}

} // verus!
