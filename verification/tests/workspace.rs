use chord_ws::workspace::git::libgit2::{hash_hex, remote_tracking_ref};
use chord_ws::workspace::utils::{
    get_top_dir, is_absolute_path, join_path, lockfile_path, manifest_path, parent_of,
    top_dir_candidates,
};
use chord_ws::workspace::{
    GitBackend, GitOp, GitReply, JobStep, ManifestRepo, ResolveStage, Workspace, WorkspaceError,
};

fn repo(name: &str, location: Option<&str>) -> ManifestRepo {
    ManifestRepo {
        remote: String::from("https://github.com/JorgeG-Dev/chord"),
        name: String::from(name),
        revision: String::from("main"),
        location: location.map(String::from),
    }
}

fn dir_of(op: &GitOp) -> String {
    match op {
        GitOp::IsRepo { dir } => dir.clone(),
        _ => panic!("expected IsRepo"),
    }
}

#[test]
fn repo_dir_joins_location_and_name() {
    let ws = Workspace::new(String::from("/top"), GitBackend);
    assert_eq!(ws.top_dir(), "/top");
    assert_eq!(ws.repo_dir(&repo("chord", None)).ok().unwrap(), "/top/chord");
    assert_eq!(ws.repo_dir(&repo("chord", Some("deps"))).ok().unwrap(), "/top/deps/chord");
    match ws.repo_dir(&repo("chord", Some("/abs"))) {
        Err(WorkspaceError::AbsoluteLocation(n)) => assert_eq!(n, "chord"),
        _ => panic!("expected AbsoluteLocation"),
    }
}

#[test]
fn resolve_clones_missing_repo_then_checks_out_hash() {
    let ws = Workspace::new(String::from("/top"), GitBackend);
    let (mut job, op) = ws.resolve_repo(&repo("chord", Some("deps"))).ok().unwrap();
    assert_eq!(dir_of(&op), "/top/deps/chord");
    match job.step(GitReply::Flag(false)) {
        JobStep::Perform(GitOp::Clone { remote, dir }) => {
            assert_eq!(remote, "https://github.com/JorgeG-Dev/chord");
            assert_eq!(dir, "/top/deps/chord");
        }
        _ => panic!("expected Clone"),
    }
    assert!(matches!(job.step(GitReply::Done), JobStep::Perform(GitOp::Fetch { .. })));
    match job.step(GitReply::Done) {
        JobStep::Perform(GitOp::RevParse { rev, .. }) => assert_eq!(rev, "main"),
        _ => panic!("expected RevParse"),
    }
    match job.step(GitReply::Text(String::from("0123abcd"))) {
        JobStep::Perform(GitOp::Checkout { hash, dir }) => {
            assert_eq!(hash, "0123abcd");
            assert_eq!(dir, "/top/deps/chord");
        }
        _ => panic!("expected Checkout"),
    }
    match job.step(GitReply::Done) {
        JobStep::Finished(Ok(h)) => assert_eq!(h, "0123abcd"),
        _ => panic!("expected success"),
    }
    assert!(matches!(job.stage, ResolveStage::Finished));
    assert!(matches!(
        job.step(GitReply::Done),
        JobStep::Finished(Err(WorkspaceError::UnexpectedReply))
    ));
}

#[test]
fn resolve_falls_back_to_remote_branch() {
    let ws = Workspace::new(String::from("/top"), GitBackend);
    let (mut job, _) = ws.resolve_repo(&repo("chord", None)).ok().unwrap();
    assert_eq!(job.tracking_ref, "refs/remotes/origin/main");
    job.step(GitReply::Flag(true));
    job.step(GitReply::Done);
    match job.step(GitReply::Failed(String::from("revspec 'main' not found"))) {
        JobStep::Perform(GitOp::PeelReference { dir, reference }) => {
            assert_eq!(dir, "/top/chord");
            assert_eq!(reference, "refs/remotes/origin/main");
        }
        _ => panic!("expected PeelReference"),
    }
    match job.step(GitReply::Text(String::from("beef"))) {
        JobStep::Perform(GitOp::Checkout { hash, .. }) => assert_eq!(hash, "beef"),
        _ => panic!("expected Checkout"),
    }
    assert!(matches!(job.step(GitReply::Done), JobStep::Finished(Ok(h)) if h == "beef"));
}

#[test]
fn resolve_fails_when_neither_lookup_finds_the_revision() {
    let ws = Workspace::new(String::from("/top"), GitBackend);
    let (mut job, _) = ws.resolve_repo(&repo("chord", None)).ok().unwrap();
    job.step(GitReply::Flag(true));
    job.step(GitReply::Done);
    job.step(GitReply::Failed(String::from("not a revision")));
    match job.step(GitReply::Failed(String::from("no such reference"))) {
        JobStep::Finished(Err(WorkspaceError::Git(m))) => assert_eq!(m, "no such reference"),
        _ => panic!("expected a git failure"),
    }
    assert_eq!(job.hash, None);
    let mut entry = repo("chord", None);
    job.record_hash(&mut entry);
    assert_eq!(entry.revision, "main");
}

#[test]
fn resolve_keeps_hash_after_failed_checkout() {
    let ws = Workspace::new(String::from("/top"), GitBackend);
    let mut entry = repo("chord", None);
    let (mut job, _) = ws.resolve_repo(&entry).ok().unwrap();
    job.step(GitReply::Flag(true));
    job.step(GitReply::Done);
    job.step(GitReply::Text(String::from("c0ffee")));
    match job.step(GitReply::Failed(String::from("conflict"))) {
        JobStep::Finished(Err(WorkspaceError::Git(m))) => assert_eq!(m, "conflict"),
        _ => panic!("expected a git failure"),
    }
    assert_eq!(job.hash, Some(String::from("c0ffee")));
    job.record_hash(&mut entry);
    assert_eq!(entry.revision, "c0ffee");
    assert_eq!(entry.name, "chord");
}

#[test]
fn record_hash_before_lookup_leaves_repo() {
    let ws = Workspace::new(String::from("/top"), GitBackend);
    let mut entry = repo("chord", None);
    let (mut job, _) = ws.resolve_repo(&entry).ok().unwrap();
    job.step(GitReply::Flag(false));
    job.step(GitReply::Failed(String::from("clone failed")));
    job.record_hash(&mut entry);
    assert_eq!(entry.revision, "main");
}

#[test]
fn resolve_skips_clone_of_existing_repo() {
    let ws = Workspace::new(String::from("/top"), GitBackend);
    let (mut job, _) = ws.resolve_repo(&repo("chord", None)).ok().unwrap();
    match job.step(GitReply::Flag(true)) {
        JobStep::Perform(GitOp::Fetch { dir }) => assert_eq!(dir, "/top/chord"),
        _ => panic!("expected Fetch"),
    }
}

#[test]
fn resolve_stops_at_failed_clone() {
    let ws = Workspace::new(String::from("/top"), GitBackend);
    let (mut job, _) = ws.resolve_repo(&repo("chord", None)).ok().unwrap();
    job.step(GitReply::Flag(false));
    match job.step(GitReply::Failed(String::from("no such remote"))) {
        JobStep::Finished(Err(WorkspaceError::Git(m))) => assert_eq!(m, "no such remote"),
        _ => panic!("expected a git failure"),
    }
}

#[test]
fn resolve_refuses_absolute_location() {
    let ws = Workspace::new(String::from("/top"), GitBackend);
    assert!(matches!(
        ws.resolve_repo(&repo("chord", Some("/etc"))),
        Err(WorkspaceError::AbsoluteLocation(_))
    ));
}

#[test]
fn status_compares_hash_with_lock() {
    let ws = Workspace::new(String::from("/top"), GitBackend);
    let (mut job, _) = ws.repo_status(&repo("chord", None), "abc").ok().unwrap();
    assert!(matches!(job.step(GitReply::Flag(true)), JobStep::Perform(GitOp::CurrentHash { .. })));
    assert!(matches!(job.step(GitReply::Text(String::from("abc"))), JobStep::Perform(GitOp::IsDirty { .. })));
    assert!(matches!(job.step(GitReply::Flag(true)), JobStep::Finished(Ok((true, true)))));

    let (mut job, _) = ws.repo_status(&repo("chord", None), "abc").ok().unwrap();
    job.step(GitReply::Flag(true));
    job.step(GitReply::Text(String::from("def")));
    assert!(matches!(job.step(GitReply::Flag(false)), JobStep::Finished(Ok((false, false)))));
}

#[test]
fn status_of_missing_repo_fails() {
    let ws = Workspace::new(String::from("/top"), GitBackend);
    let (mut job, _) = ws.repo_status(&repo("chord", None), "abc").ok().unwrap();
    match job.step(GitReply::Flag(false)) {
        JobStep::Finished(Err(WorkspaceError::NotARepo(n))) => assert_eq!(n, "chord"),
        _ => panic!("expected NotARepo"),
    }
}

#[test]
fn run_job_outcomes() {
    let ws = Workspace::new(String::from("/top"), GitBackend);
    let (mut job, _) = ws.repo_run(&repo("chord", None), "touch marker.txt").ok().unwrap();
    match job.step(GitReply::Flag(true)) {
        JobStep::Perform(GitOp::Run { dir, command }) => {
            assert_eq!(dir, "/top/chord");
            assert_eq!(command, "touch marker.txt");
        }
        _ => panic!("expected Run"),
    }
    assert!(matches!(job.step(GitReply::Flag(true)), JobStep::Finished(Ok(()))));

    let (mut job, _) = ws.repo_run(&repo("chord", None), "exit 1").ok().unwrap();
    job.step(GitReply::Flag(true));
    assert!(matches!(job.step(GitReply::Flag(false)), JobStep::Finished(Err(WorkspaceError::CommandFailed))));

    let (mut job, _) = ws.repo_run(&repo("chord", None), "x").ok().unwrap();
    job.step(GitReply::Flag(true));
    assert!(matches!(
        job.step(GitReply::Failed(String::from("spawn"))),
        JobStep::Finished(Err(WorkspaceError::CommandNotRun))
    ));

    let (mut job, _) = ws.repo_run(&repo("chord", None), "x").ok().unwrap();
    assert!(matches!(job.step(GitReply::Flag(false)), JobStep::Finished(Err(WorkspaceError::NotARepo(_)))));
}

#[test]
fn hash_hex_is_lowercase_two_digits_per_byte() {
    assert_eq!(hash_hex(&[0x00, 0x0f, 0xab, 0xff, 0x10]), "000fabff10");
    assert_eq!(hash_hex(&[]), "");
    let bytes: Vec<u8> = (0u8..20).collect();
    assert_eq!(hash_hex(&bytes).len(), 40);
}

#[test]
fn remote_tracking_ref_names_origin_branch() {
    assert_eq!(remote_tracking_ref("main"), "refs/remotes/origin/main");
}

#[test]
fn paths_join_and_classify() {
    assert_eq!(join_path("/a", "b"), "/a/b");
    assert_eq!(join_path("/a", "/b"), "/b");
    assert!(is_absolute_path("/etc"));
    assert!(!is_absolute_path("."));
    assert!(!is_absolute_path("deps"));
    assert_eq!(parent_of("/a/b"), Some(String::from("/a")));
    assert_eq!(parent_of("/"), None);
    assert_eq!(manifest_path("/w"), "/w/chord.yaml");
    assert_eq!(lockfile_path("/w"), "/w/chord.lock.yaml");
}

#[test]
fn top_dir_candidates_walk_to_root() {
    assert_eq!(
        top_dir_candidates("/a/b/c"),
        vec![
            String::from("/a/b/c"),
            String::from("/a/b"),
            String::from("/a"),
            String::from("/")
        ]
    );
    assert_eq!(top_dir_candidates("/"), vec![String::from("/")]);
}

#[test]
fn top_dir_is_first_candidate_with_manifest() {
    let probes = vec![
        (String::from("/a/b/c"), false),
        (String::from("/a/b"), true),
        (String::from("/a"), true),
    ];
    assert_eq!(get_top_dir(&probes), Some(String::from("/a/b")));
    let none = vec![(String::from("/a"), false), (String::from("/"), false)];
    assert_eq!(get_top_dir(&none), None);
    assert_eq!(get_top_dir(&Vec::new()), None);
}
