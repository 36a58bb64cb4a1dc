//! What each command of `chord` decides, once the outside work it needs is done: the
//! manifest it writes, the lockfile it writes, the rows it shows, the error it ends with.
pub mod foreach;
pub mod init;
pub mod manifest;
pub mod status;
pub mod sync;
pub mod update;

pub use foreach::run as foreach;
pub use manifest::add_run as manifest_add;
pub use manifest::modify_run as manifest_modify;
pub use manifest::remove_run as manifest_remove;
pub use sync::run as sync;
pub use update::run as update;

use vstd::prelude::*;
use crate::workspace::manifest::ManifestError;

verus! {

/// Why a command failed.
pub enum CommandError {
    /// The manifest could not be edited so.
    Manifest(ManifestError),
    /// `manifest modify` was given no new value.
    NoNewValues,
    /// So many repos, out of this many, failed to sync.
    UpdateFailed { failed: usize, total: usize },
    /// The command failed in so many repos, out of this many.
    ForallFailed { failed: usize, total: usize },
}

} // verus!
