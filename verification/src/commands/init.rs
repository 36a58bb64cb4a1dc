//! The `init` command: the manifest that a new workspace starts with.
use vstd::prelude::*;
use crate::workspace::manifest::{Manifest, RepoView};

verus! {

/// The manifest that `chord init` writes: one repo, this project's own, named `chord`,
/// at revision `main`, in the top directory.
pub fn default_manifest() -> (r: Manifest)
    ensures
        r@ == seq![
            RepoView {
                remote: "https://github.com/JorgeG-Dev/chord"@,
                name: "chord"@,
                revision: "main"@,
                location: None,
            },
        ],
{
    let mut manifest = Manifest::new();
    let added = manifest.add_repo(
        "chord".to_owned(),
        "https://github.com/JorgeG-Dev/chord".to_owned(),
        "main".to_owned(),
        None,
    );
    assert(added is Ok);
    assert(manifest@ =~= seq![
        RepoView {
            remote: "https://github.com/JorgeG-Dev/chord"@,
            name: "chord"@,
            revision: "main"@,
            location: None,
        },
    ]);
    manifest
}

} // verus!
