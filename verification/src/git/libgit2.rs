//! What the libgit2 backend decides itself when it checks out a revision: which object the
//! revision names, by its kind.
use vstd::prelude::*;
use crate::manifest::Rev;

verus! {

/// Don't need any fields, just a target for implementing the backend.
pub struct Git2Backend;

/// Where the commit to check out is looked up.
pub enum CheckoutTarget {
    /// The commit with this hash.
    Commit(String),
    /// The commit that this reference points at.
    Reference(String),
    /// The commit at the head of this remote branch.
    RemoteBranch(String),
}

impl Git2Backend {
    /// The lookup for a revision: a hash is the commit itself, a tag is the reference
    /// `refs/tags/<tag>`, a branch is the remote branch `origin/<branch>`.
    pub fn checkout_target(&self, rev: &Rev) -> (r: CheckoutTarget)
        ensures
            match *rev {
                Rev::Hash(h) => r matches CheckoutTarget::Commit(c) && c@ == h@,
                Rev::Tag(t) => r matches CheckoutTarget::Reference(n) && n@ == "refs/tags/"@ + t@,
                Rev::Branch(b) => r matches CheckoutTarget::RemoteBranch(n) && n@ == "origin/"@ + b@,
            },
    {
        match rev {
            Rev::Hash(h) => CheckoutTarget::Commit(h.clone()),
            Rev::Tag(t) => {
                let mut name = "refs/tags/".to_owned();
                name.append(t.as_str());
                CheckoutTarget::Reference(name)
            },
            Rev::Branch(b) => {
                let mut name = "origin/".to_owned();
                name.append(b.as_str());
                CheckoutTarget::RemoteBranch(name)
            },
        }
    }
}

} // verus!
