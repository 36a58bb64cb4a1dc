//! The `status` command: a table with, for each repo, whether it is checked out at its
//! locked revision and whether its working tree holds changes.
use vstd::prelude::*;
use crate::workspace::lockfile::Lockfile;
use crate::workspace::{repo_dir_of, GitOp, ManifestRepo, StatusJob, Workspace, WorkspaceError};

verus! {

/// A row of the status table.
pub struct StatusRow {
    pub name: String,
    pub status: String,
    pub dirty: String,
}

/// The header of the status table.
pub fn header() -> (r: [&'static str; 3])
    ensures
        r[0]@ == "NAME"@,
        r[1]@ == "STATUS"@,
        r[2]@ == "DIRTY"@,
{
    ["NAME", "STATUS", "DIRTY"]
}

/// The row of repo `name`, given what was found of it: `None` where the lockfile does not
/// pin it ("unavailable", "unknown"); otherwise whether it is at the locked revision
/// ("locked" or "mismatch") and whether it is dirty ("yes" or "no").
pub fn row(name: &str, found: Option<(bool, bool)>) -> (r: StatusRow)
    ensures
        r.name@ == name@,
        match found {
            None => r.status@ == "unavailable"@ && r.dirty@ == "unknown"@,
            Some((at_lock, dirty)) => {
                &&& r.status@ == (if at_lock { "locked"@ } else { "mismatch"@ })
                &&& r.dirty@ == (if dirty { "yes"@ } else { "no"@ })
            },
        },
{
    match found {
        None => StatusRow {
            name: name.to_owned(),
            status: "unavailable".to_owned(),
            dirty: "unknown".to_owned(),
        },
        Some((at_lock, dirty)) => StatusRow {
            name: name.to_owned(),
            status: if at_lock { "locked".to_owned() } else { "mismatch".to_owned() },
            dirty: if dirty { "yes".to_owned() } else { "no".to_owned() },
        },
    }
}

/// Starts reading the status of `repo` where the lockfile pins it: `None` where it does not
/// (its row is then "unavailable"); otherwise the status job against the pinned revision,
/// and the first operation it asks for, or the reason it cannot start.
pub fn start(
    workspace: &Workspace,
    lockfile: &Lockfile,
    repo: &ManifestRepo,
) -> (r: Option<Result<(StatusJob, GitOp), WorkspaceError>>)
    ensures
        r is None <==> !lockfile@.contains_key(repo.name@),
        r matches Some(started) ==> match repo_dir_of(workspace@, repo@) {
            Some(d) => started matches Ok((job, op)) && {
                &&& job.dir@ == d
                &&& job.name == repo.name
                &&& job.locked@ == lockfile@[repo.name@]
                &&& job.stage is Probing
                &&& op == GitOp::IsRepo { dir: job.dir }
            },
            None => started matches Err(WorkspaceError::AbsoluteLocation(n)) && n@ == repo.name@,
        },
{
    match lockfile.get(repo.name.as_str()) {
        None => None,
        Some(locked) => Some(workspace.repo_status(repo, locked.as_str())),
    }
}

} // verus!
