use chord_ws::cli::{is_white, non_empty_string};
use chord_ws::commands::foreach::{command_line, run as foreach_run};
use chord_ws::commands::status::{header, row, start};
use chord_ws::commands::sync::{plan, run as sync_run, SyncRun};
use chord_ws::commands::update::run as update_run;
use chord_ws::commands::CommandError;
use chord_ws::git::libgit2::{CheckoutTarget, Git2Backend};
use chord_ws::manifest::Rev;
use chord_ws::workspace::{GitBackend, GitOp, Lockfile, Manifest, ManifestRepo, Workspace, WorkspaceError};

fn repo(name: &str, revision: &str) -> ManifestRepo {
    ManifestRepo {
        remote: String::from("https://github.com/JorgeG-Dev/chord"),
        name: String::from(name),
        revision: String::from(revision),
        location: None,
    }
}

#[test]
fn update_pins_only_resolved_repos() {
    let (lockfile, result) = update_run(vec![
        (String::from("invalid"), None),
        (String::from("chord"), Some(String::from("c45cf5c7"))),
    ]);
    assert!(lockfile.get("invalid").is_none());
    assert_eq!(lockfile.get("chord").unwrap(), "c45cf5c7");
    match result {
        Err(CommandError::UpdateFailed { failed, total }) => {
            assert_eq!(failed, 1);
            assert_eq!(total, 2);
        }
        _ => panic!("expected UpdateFailed"),
    }
}

#[test]
fn update_succeeds_when_all_resolve() {
    let (lockfile, result) = update_run(vec![
        (String::from("chord1"), Some(String::from("aa"))),
        (String::from("chord2"), Some(String::from("bb"))),
    ]);
    assert!(result.is_ok());
    assert_eq!(lockfile.get("chord1").unwrap(), "aa");
    assert_eq!(lockfile.get("chord2").unwrap(), "bb");
    let (empty, result) = update_run(Vec::new());
    assert!(result.is_ok());
    assert!(empty.entries().is_empty());
}

#[test]
fn sync_uses_lockfile_revision_when_pinned() {
    let manifest = Manifest { repos: vec![repo("chord", "main"), repo("dummy", "dev")] };
    let mut lockfile = Lockfile::new();
    lockfile.insert(String::from("chord"), String::from("0123456789012345678901234567890123456789"));
    let planned = plan(manifest, Some(lockfile));
    assert_eq!(planned.repos[0].revision, "0123456789012345678901234567890123456789");
    assert_eq!(planned.repos[1].revision, "dev");

    let manifest = Manifest { repos: vec![repo("chord", "main")] };
    let planned = plan(manifest, None);
    assert_eq!(planned.repos[0].revision, "main");
}

#[test]
fn sync_writes_new_hashes_or_first_error() {
    let (lockfile, result) = sync_run(vec![
        (String::from("chord"), Ok(String::from("11223344"))),
        (String::from("other"), Ok(String::from("55667788"))),
    ]);
    assert!(result.is_ok());
    assert_eq!(lockfile.get("chord").unwrap(), "11223344");
    assert_eq!(lockfile.get("other").unwrap(), "55667788");

    let (lockfile, failed) = sync_run(vec![
        (String::from("chord"), Ok(String::from("11223344"))),
        (String::from("broken"), Err(WorkspaceError::Git(String::from("first")))),
        (String::from("later"), Ok(String::from("99"))),
    ]);
    match failed {
        Err(WorkspaceError::Git(m)) => assert_eq!(m, "first"),
        _ => panic!("expected the first failure"),
    }
    assert_eq!(lockfile.get("chord").unwrap(), "11223344");
    assert!(lockfile.get("broken").is_none());
    assert!(lockfile.get("later").is_none());
}

#[test]
fn foreach_joins_words_and_counts_failures() {
    let words = vec![
        String::from("echo"),
        String::from("hello"),
        String::from("world"),
        String::from(">"),
        String::from("out.txt"),
    ];
    assert_eq!(command_line(&words), "echo hello world > out.txt");
    assert_eq!(command_line(&Vec::new()), "");
    assert!(foreach_run(&vec![Ok(()), Ok(())]).is_ok());
    match foreach_run(&vec![Err(WorkspaceError::NotARepo(String::from("chord1"))), Ok(())]) {
        Err(CommandError::ForallFailed { failed, total }) => {
            assert_eq!(failed, 1);
            assert_eq!(total, 2);
        }
        _ => panic!("expected ForallFailed"),
    }
}

#[test]
fn status_rows_label_each_state() {
    assert_eq!(header(), ["NAME", "STATUS", "DIRTY"]);
    let r = row("chord", None);
    assert_eq!((r.name.as_str(), r.status.as_str(), r.dirty.as_str()), ("chord", "unavailable", "unknown"));
    let r = row("chord", Some((true, false)));
    assert_eq!((r.status.as_str(), r.dirty.as_str()), ("locked", "no"));
    let r = row("chord", Some((false, true)));
    assert_eq!((r.status.as_str(), r.dirty.as_str()), ("mismatch", "yes"));
}

#[test]
fn blank_arguments_are_refused() {
    assert_eq!(non_empty_string("chord"), Ok(String::from("chord")));
    assert_eq!(non_empty_string(" x "), Ok(String::from(" x ")));
    assert_eq!(non_empty_string(""), Err(String::from("value cannot be blank")));
    assert_eq!(non_empty_string(" \t\n"), Err(String::from("value cannot be blank")));
    assert_eq!(non_empty_string("\u{3000}\u{a0}"), Err(String::from("value cannot be blank")));
    assert_eq!(non_empty_string("\u{200b}"), Ok(String::from("\u{200b}")));
}

#[test]
fn white_space_agrees_with_std_on_every_char() {
    for u in 0u32..=0x10ffff {
        if let Some(c) = char::from_u32(u) {
            assert_eq!(is_white(c), c.is_whitespace(), "U+{:04X}", u);
        }
    }
}

#[test]
fn checkout_targets_by_kind() {
    let backend = Git2Backend;
    match backend.checkout_target(&Rev::Tag(String::from("v1"))) {
        CheckoutTarget::Reference(n) => assert_eq!(n, "refs/tags/v1"),
        _ => panic!("expected a reference"),
    }
    match backend.checkout_target(&Rev::Branch(String::from("main"))) {
        CheckoutTarget::RemoteBranch(n) => assert_eq!(n, "origin/main"),
        _ => panic!("expected a remote branch"),
    }
    match backend.checkout_target(&Rev::Hash(String::from("abc"))) {
        CheckoutTarget::Commit(h) => assert_eq!(h, "abc"),
        _ => panic!("expected a commit"),
    }
}

#[test]
fn sync_run_stops_at_first_failure() {
    let mut run = SyncRun::new();
    assert!(run.record(String::from("a"), Ok(String::from("h1"))));
    assert!(!run.record(String::from("b"), Err(WorkspaceError::CommandFailed)));
    assert!(!run.record(String::from("c"), Ok(String::from("h3"))));
    assert!(run.lockfile.get("c").is_none());
    let (lockfile, result) = run.finish();
    assert!(matches!(result, Err(WorkspaceError::CommandFailed)));
    assert_eq!(lockfile.get("a").unwrap(), "h1");

    let mut run = SyncRun::new();
    assert!(run.record(String::from("a"), Ok(String::from("h1"))));
    let (lockfile, result) = run.finish();
    assert!(result.is_ok());
    assert_eq!(lockfile.get("a").unwrap(), "h1");
}

#[test]
fn status_starts_only_for_pinned_repos() {
    let ws = Workspace::new(String::from("/top"), GitBackend);
    let mut lockfile = Lockfile::new();
    lockfile.insert(String::from("chord"), String::from("abc123"));
    let entry = |name: &str, location: Option<&str>| ManifestRepo {
        remote: String::from("https://github.com/org/chord"),
        name: String::from(name),
        revision: String::from("main"),
        location: location.map(String::from),
    };
    assert!(start(&ws, &lockfile, &entry("other", None)).is_none());
    match start(&ws, &lockfile, &entry("chord", None)) {
        Some(Ok((job, GitOp::IsRepo { dir }))) => {
            assert_eq!(dir, "/top/chord");
            assert_eq!(job.locked, "abc123");
        }
        _ => panic!("expected a started status job"),
    }
    assert!(matches!(
        start(&ws, &lockfile, &entry("chord", Some("/abs"))),
        Some(Err(WorkspaceError::AbsoluteLocation(_)))
    ));
}
