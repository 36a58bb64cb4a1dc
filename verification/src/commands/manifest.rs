//! The `manifest` command: adding, removing and modifying repos of the manifest. Each
//! function takes the manifest as read and gives back the one to write.
use vstd::prelude::*;
use crate::commands::CommandError;
use crate::workspace::manifest::{
    first_named, has_name, modified_repo, opt_view, Manifest, ManifestError, RepoView,
};

verus! {

/// Adds a repo to the manifest. Fails where a repo of that name is already in it.
pub fn add_run(
    manifest: Manifest,
    name: String,
    remote: String,
    revision: String,
    location: Option<String>,
) -> (r: Result<Manifest, CommandError>)
    ensures
        r is Err <==> has_name(manifest@, name@),
        r matches Err(e) ==> (e matches CommandError::Manifest(ManifestError::RepoExists(n)) && n@ == name@),
        r matches Ok(m) ==> m@ == manifest@.push(
            RepoView { remote: remote@, name: name@, revision: revision@, location: opt_view(location) },
        ),
{
    let mut manifest = manifest;
    match manifest.add_repo(name, remote, revision, location) {
        Ok(()) => Ok(manifest),
        Err(e) => Err(CommandError::Manifest(e)),
    }
}

/// Removes a repo from the manifest. Fails where no repo of that name is in it.
pub fn remove_run(manifest: Manifest, name: String) -> (r: Result<Manifest, CommandError>)
    ensures
        r is Ok <==> has_name(manifest@, name@),
        r matches Err(e) ==> (e matches CommandError::Manifest(ManifestError::RepoNotFound(n)) && n@ == name@),
        r matches Ok(m) ==> m@ == manifest@.remove(first_named(manifest@, name@)),
{
    let mut manifest = manifest;
    match manifest.remove_repo(name) {
        Ok(()) => Ok(manifest),
        Err(e) => Err(CommandError::Manifest(e)),
    }
}

/// Whether a modification names at least one new value.
pub open spec fn has_new_value(
    new_name: Option<String>,
    new_remote: Option<String>,
    new_revision: Option<String>,
    new_location: Option<String>,
) -> bool {
    new_name is Some || new_remote is Some || new_revision is Some || new_location is Some
}

/// Checks that a modification names at least one new value; `manifest modify` makes this
/// check before it reads the manifest.
pub fn validate_modify(
    new_name: &Option<String>,
    new_remote: &Option<String>,
    new_revision: &Option<String>,
    new_location: &Option<String>,
) -> (r: Result<(), CommandError>)
    ensures
        r is Ok <==> has_new_value(*new_name, *new_remote, *new_revision, *new_location),
        r matches Err(e) ==> e is NoNewValues,
{
    if new_name.is_none() && new_remote.is_none() && new_revision.is_none() && new_location.is_none() {
        Err(CommandError::NoNewValues)
    } else {
        Ok(())
    }
}

/// Modifies the repo named `name`: each new value given replaces the field it names. Fails
/// where no new value is given, where no repo of that name is in the manifest, or where the
/// new name is another repo's, in this order.
pub fn modify_run(
    manifest: Manifest,
    name: String,
    new_name: Option<String>,
    new_remote: Option<String>,
    new_revision: Option<String>,
    new_location: Option<String>,
) -> (r: Result<Manifest, CommandError>)
    ensures
        !has_new_value(new_name, new_remote, new_revision, new_location) ==> (r matches Err(e) && e is NoNewValues),
        has_new_value(new_name, new_remote, new_revision, new_location) ==> {
            &&& !has_name(manifest@, name@) ==> (r matches Err(CommandError::Manifest(ManifestError::RepoNotFound(n))) && n@ == name@)
            &&& has_name(manifest@, name@) ==> match new_name {
                Some(nn) => if nn@ != name@ && has_name(manifest@, nn@) {
                    (r matches Err(CommandError::Manifest(ManifestError::RepoExists(n))) && n@ == nn@)
                } else {
                    r is Ok
                },
                None => r is Ok,
            }
        },
        r matches Ok(m) ==> m@ == manifest@.update(
            first_named(manifest@, name@),
            modified_repo(
                manifest@[first_named(manifest@, name@)],
                opt_view(new_name),
                opt_view(new_remote),
                opt_view(new_revision),
                opt_view(new_location),
            ),
        ),
{
    match validate_modify(&new_name, &new_remote, &new_revision, &new_location) {
        Ok(()) => {},
        Err(e) => return Err(e),
    }
    let mut manifest = manifest;
    match manifest.modify_repo(name, new_name, new_remote, new_revision, new_location) {
        Ok(()) => Ok(manifest),
        Err(e) => Err(CommandError::Manifest(e)),
    }
}

} // verus!
