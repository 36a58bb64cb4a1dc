use chord_ws::commands::init::default_manifest;
use chord_ws::commands::manifest::{add_run, modify_run, remove_run, validate_modify};
use chord_ws::commands::CommandError;
use chord_ws::workspace::manifest::ManifestError;
use chord_ws::workspace::{Lockfile, Manifest, ManifestRepo};

const VALID_REPO_REMOTE: &str = "https://github.com/JorgeG-Dev/chord";
const VALID_REPO_NAME: &str = "chord";
const INEXISTENT_REPO_NAME: &str = "inexistent";
const MODIFIED_REPO_NAME: &str = "modified";

fn test_repo(name: &str, revision: &str) -> ManifestRepo {
    ManifestRepo {
        remote: String::from("https://example.com/repo"),
        revision: String::from(revision),
        name: String::from(name),
        location: None,
    }
}

/// The manifest of the workspace that the command tests start from: one repo, `chord`.
fn default_workspace_manifest() -> Manifest {
    Manifest {
        repos: vec![ManifestRepo {
            remote: String::from(VALID_REPO_REMOTE),
            name: String::from(VALID_REPO_NAME),
            revision: String::from("main"),
            location: None,
        }],
    }
}

fn has_repo(manifest: &Manifest, name: &str) -> bool {
    manifest.repos.iter().any(|r| r.name == name)
}

#[test]
fn test_apply_lock_overwrites_matching_repo_revision() {
    let mut manifest = Manifest {
        repos: vec![test_repo("repo-a", "main")],
    };
    let mut lockfile = Lockfile::new();
    lockfile.insert(String::from("repo-a"), String::from("abc123"));

    manifest.apply_lock(&mut lockfile);

    assert_eq!(manifest.repos[0].revision, "abc123");
}

#[test]
fn test_apply_lock_leaves_unmatched_repo_untouched() {
    let mut manifest = Manifest {
        repos: vec![test_repo("repo-a", "main")],
    };
    let mut lockfile = Lockfile::new();
    lockfile.insert(String::from("repo-b"), String::from("abc123"));

    manifest.apply_lock(&mut lockfile);

    assert_eq!(manifest.repos[0].revision, "main");
}

#[test]
fn test_apply_lock_with_empty_lockfile_changes_nothing() {
    let mut manifest = Manifest {
        repos: vec![test_repo("repo-a", "main")],
    };
    let mut lockfile = Lockfile::new();

    manifest.apply_lock(&mut lockfile);

    assert_eq!(manifest.repos[0].revision, "main");
}

#[test]
fn apply_lock_drains_the_pins_it_uses() {
    let mut manifest = Manifest {
        repos: vec![test_repo("repo-a", "main"), test_repo("repo-b", "dev")],
    };
    let mut lockfile = Lockfile::new();
    lockfile.insert(String::from("repo-a"), String::from("aaa"));
    lockfile.insert(String::from("other"), String::from("ooo"));

    manifest.apply_lock(&mut lockfile);

    assert_eq!(manifest.repos[0].revision, "aaa");
    assert_eq!(manifest.repos[1].revision, "dev");
    assert!(lockfile.get("repo-a").is_none());
    assert_eq!(lockfile.get("other").unwrap(), "ooo");

    // A second application finds nothing more to pin.
    manifest.apply_lock(&mut lockfile);
    assert_eq!(manifest.repos[0].revision, "aaa");
    assert_eq!(manifest.repos[1].revision, "dev");
}

#[test]
fn test_init_manifest_has_default_repo() {
    let manifest = default_manifest();
    assert_eq!(manifest.repos.len(), 1);
    assert_eq!(manifest.repos[0].name, "chord");
    assert_eq!(manifest.repos[0].remote, "https://github.com/JorgeG-Dev/chord");
    assert_eq!(manifest.repos[0].revision, "main");
    assert!(manifest.repos[0].location.is_none());
}

#[test]
fn test_manifest_add_repo_already_exists() {
    let result = add_run(
        default_workspace_manifest(),
        String::from("chord"),
        "url".to_string(),
        "rev".to_string(),
        Some(String::from(".")),
    );

    assert!(result.is_err());
}

#[test]
fn test_manifest_add_repo_success() {
    let result = add_run(
        default_workspace_manifest(),
        INEXISTENT_REPO_NAME.to_string(),
        "url".to_string(),
        "rev".to_string(),
        Some(String::from(".")),
    );

    assert!(result.is_ok());
    let manifest = result.ok().unwrap();
    assert!(has_repo(&manifest, INEXISTENT_REPO_NAME));
    let added = &manifest.repos[1];
    assert_eq!(added.remote, "url");
    assert_eq!(added.revision, "rev");
    assert_eq!(added.location.as_deref(), Some("."));
}

#[test]
fn test_manifest_remove_inexistent_repo() {
    let result = remove_run(default_workspace_manifest(), INEXISTENT_REPO_NAME.to_string());

    assert!(result.is_err());
}

#[test]
fn test_manifest_remove_success() {
    let result = remove_run(default_workspace_manifest(), VALID_REPO_NAME.to_string());

    assert!(result.is_ok());
    let manifest = result.ok().unwrap();
    assert!(!has_repo(&manifest, VALID_REPO_NAME));
}

#[test]
fn test_manifest_modify_success() {
    let result = modify_run(
        default_workspace_manifest(),
        VALID_REPO_NAME.to_string(),
        Some(MODIFIED_REPO_NAME.to_string()),
        None,
        None,
        None,
    );

    assert!(result.is_ok());
    let manifest = result.ok().unwrap();
    assert!(has_repo(&manifest, MODIFIED_REPO_NAME));
    assert_eq!(manifest.repos[0].remote, VALID_REPO_REMOTE);
    assert_eq!(manifest.repos[0].revision, "main");
}

#[test]
fn test_manifest_modify_repo_inexistent() {
    let result = modify_run(
        default_workspace_manifest(),
        INEXISTENT_REPO_NAME.to_string(),
        Some(MODIFIED_REPO_NAME.to_string()),
        None,
        None,
        None,
    );

    assert!(result.is_err());
    assert!(matches!(
        result,
        Err(CommandError::Manifest(ManifestError::RepoNotFound(_)))
    ));
}

#[test]
fn test_manifest_modify_repo_no_values_provided() {
    let result = modify_run(
        default_workspace_manifest(),
        INEXISTENT_REPO_NAME.to_string(),
        None,
        None,
        None,
        None,
    );

    assert!(matches!(result, Err(CommandError::NoNewValues)));
    assert!(matches!(
        validate_modify(&None, &None, &None, &None),
        Err(CommandError::NoNewValues)
    ));
    assert!(validate_modify(&None, &None, &Some(String::from("v2")), &None).is_ok());
}

#[test]
fn modify_refuses_a_name_already_taken() {
    let mut manifest = default_workspace_manifest();
    manifest.repos.push(test_repo("second", "main"));
    let result = modify_run(
        manifest,
        String::from("second"),
        Some(VALID_REPO_NAME.to_string()),
        None,
        None,
        None,
    );
    match result {
        Err(CommandError::Manifest(ManifestError::RepoExists(n))) => assert_eq!(n, VALID_REPO_NAME),
        _ => panic!("expected RepoExists"),
    }
}

#[test]
fn modify_replaces_only_given_fields() {
    let result = modify_run(
        default_workspace_manifest(),
        VALID_REPO_NAME.to_string(),
        Some(VALID_REPO_NAME.to_string()),
        Some(String::from("ssh://git@host/x.git")),
        Some(String::from("v2")),
        Some(String::from("deps")),
    );
    let manifest = result.ok().unwrap();
    let repo = &manifest.repos[0];
    assert_eq!(repo.name, VALID_REPO_NAME);
    assert_eq!(repo.remote, "ssh://git@host/x.git");
    assert_eq!(repo.revision, "v2");
    assert_eq!(repo.location.as_deref(), Some("deps"));
}

#[test]
fn remove_undoes_add() {
    let before = default_workspace_manifest();
    let added = add_run(
        default_workspace_manifest(),
        String::from("extra"),
        String::from("url"),
        String::from("rev"),
        None,
    )
    .ok()
    .unwrap();
    assert_eq!(added.repos.len(), 2);
    let removed = remove_run(added, String::from("extra")).ok().unwrap();
    assert_eq!(removed.repos.len(), before.repos.len());
    assert_eq!(removed.repos[0].name, before.repos[0].name);
    assert_eq!(removed.repos[0].revision, before.repos[0].revision);
}

#[test]
fn manifest_position_finds_first_of_a_name() {
    let manifest = Manifest {
        repos: vec![test_repo("a", "1"), test_repo("b", "2"), test_repo("b", "3")],
    };
    assert_eq!(manifest.position("b"), Some(1));
    assert_eq!(manifest.position("c"), None);
    assert!(Manifest::new().repos.is_empty());
}
