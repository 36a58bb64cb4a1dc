use chord_ws::manifest;
use chord_ws::repo::{name_from_path, Location, Name, Remote, Repo, RepoError, Rev, UrlScheme};

#[test]
fn valid_remote() {
    for remote in [
        "https://github.com/org/repo.git",
        "http://github.com/org/repo.git",
        "git@github.com:org/repo.git",
        "ssh://git@github.com/org/repo.git",
    ] {
        assert_eq!(true, Remote::try_from(remote.to_string()).is_ok(), "{remote}");
    }
}

#[test]
fn invalid_remote() {
    for remote in ["not-a-url", "", "scp://git@github.com/org/repo.git"] {
        assert_eq!(true, Remote::try_from(remote.to_string()).is_err(), "{remote}");
    }
}

#[test]
fn valid_location() {
    for location in [".", "test"] {
        assert_eq!(true, Location::try_from(location.to_string()).is_ok());
    }
}

#[test]
fn invalid_location() {
    for location in ["/", "/etc", ""] {
        assert_eq!(true, Location::try_from(location.to_string()).is_err());
    }
}

#[test]
fn location_errors_name_their_cause() {
    assert!(matches!(Location::try_from(String::new()), Err(RepoError::EmptyLocation)));
    assert!(matches!(Location::try_from(String::from("/etc")), Err(RepoError::AbsoluteLocation)));
    assert_eq!(Location::try_from(String::from("deps/sub")).ok().unwrap().as_str(), "deps/sub");
}

#[test]
fn valid_rev() {
    for rev in ["main", "34889912f4ab886f7f847d50f0f4eadcaeba483d", "79e0149"] {
        assert_eq!(true, Rev::try_from(rev.to_string()).is_ok());
    }
}

#[test]
fn invalid_rev() {
    assert_eq!(true, Rev::try_from(String::from("")).is_err());
}

#[test]
fn valid_name() {
    assert_eq!(true, Name::try_from(String::from("repo_name")).is_ok());
}

#[test]
fn invalid_name() {
    assert_eq!(true, Name::try_from(String::from("")).is_err());
}

#[test]
fn missing_name() {
    let manifest_repo = manifest::Repo {
        remote: String::from("https://github.com/JorgeG-Dev/chord.git"),
        rev: Some(String::from("branch")),
        location: Some(String::from("deps")),
        name: None,
    };

    let parsed_repo = Repo::try_from(manifest_repo).ok().unwrap();
    assert_eq!("chord", parsed_repo.name.as_str());
}

#[test]
fn missing_location() {
    let manifest_repo = manifest::Repo {
        remote: String::from("https://github.com/JorgeG-Dev/chord.git"),
        rev: Some(String::from("branch")),
        location: None,
        name: Some(String::from("name")),
    };

    let parsed_repo = Repo::try_from(manifest_repo).ok().unwrap();
    assert_eq!(".", parsed_repo.location.as_str());
}

#[test]
fn missing_rev() {
    let manifest_repo = manifest::Repo {
        remote: String::from("https://github.com/JorgeG-Dev/chord.git"),
        rev: None,
        location: Some(String::from("deps")),
        name: Some(String::from("name")),
    };

    let parsed_repo = Repo::try_from(manifest_repo).ok().unwrap();
    assert_eq!("main", parsed_repo.rev.as_str());
}

#[test]
fn missing_all_except_remote() {
    for remote in [
        "https://github.com/org/chord.git",
        "http://github.com/org/chord.git",
        "git@github.com:org/chord.git",
        "ssh://git@github.com/org/chord.git",
    ] {
        let manifest_repo = manifest::Repo {
            remote: remote.to_string(),
            rev: None,
            location: None,
            name: None,
        };
        let parsed_repo = Repo::try_from(manifest_repo).ok().unwrap();
        assert_eq!("main", parsed_repo.rev.as_str());
        assert_eq!(".", parsed_repo.location.as_str());
        assert_eq!("chord", parsed_repo.name.as_str());
        assert_eq!(remote, parsed_repo.remote.as_str());
    }
}

#[test]
fn repo_name_strips_slashes_and_git_suffixes() {
    let remote = Remote::try_from(String::from("https://example.com/org/tool.git.git/")).ok().unwrap();
    assert_eq!("tool", remote.repo_name().ok().unwrap());
    let remote = Remote::try_from(String::from("https://example.com/org/plain")).ok().unwrap();
    assert_eq!("plain", remote.repo_name().ok().unwrap());
}

#[test]
fn repo_name_fails_when_nothing_is_left() {
    let remote = Remote::try_from(String::from("https://example.com/org/.git")).ok().unwrap();
    match remote.repo_name() {
        Err(RepoError::NoRepoName(r)) => assert_eq!("https://example.com/org/.git", r),
        _ => panic!("expected NoRepoName"),
    }
}

#[test]
fn unsupported_scheme_is_reported() {
    match Remote::try_from(String::from("git://example.com/org/repo.git")) {
        Err(RepoError::UnsupportedScheme(UrlScheme::Git)) => {}
        _ => panic!("expected an unsupported git scheme"),
    }
    match Remote::try_from(String::from("file:///srv/repo.git")) {
        Err(RepoError::UnsupportedScheme(UrlScheme::File)) => {}
        _ => panic!("expected an unsupported file scheme"),
    }
}

#[test]
fn unparsable_remote_is_reported() {
    match Remote::try_from(String::from("")) {
        Err(RepoError::InvalidRemote(m)) => {
            assert_eq!(m, "local path \"\" does not specify a path to a repository")
        }
        _ => panic!("expected InvalidRemote"),
    }
}

#[test]
fn repo_errors_come_in_check_order() {
    let raw = manifest::Repo {
        remote: String::from("https://github.com/org/chord.git"),
        rev: Some(String::new()),
        location: Some(String::new()),
        name: Some(String::new()),
    };
    assert!(matches!(Repo::try_from(raw), Err(RepoError::EmptyRev)));
    let raw = manifest::Repo {
        remote: String::from("https://github.com/org/chord.git"),
        rev: None,
        location: Some(String::from("/abs")),
        name: Some(String::new()),
    };
    assert!(matches!(Repo::try_from(raw), Err(RepoError::AbsoluteLocation)));
    let raw = manifest::Repo {
        remote: String::from("https://github.com/org/chord.git"),
        rev: None,
        location: None,
        name: Some(String::new()),
    };
    assert!(matches!(Repo::try_from(raw), Err(RepoError::EmptyName)));
    let raw = manifest::Repo {
        remote: String::from("not-a-url"),
        rev: Some(String::new()),
        location: None,
        name: None,
    };
    assert!(matches!(Repo::try_from(raw), Err(RepoError::UnsupportedScheme(UrlScheme::File))));
}

#[test]
fn explicit_fields_are_kept() {
    let raw = manifest::Repo {
        remote: String::from("git@github.com:org/chord.git"),
        rev: Some(String::from("v1.0")),
        location: Some(String::from("deps")),
        name: Some(String::from("other")),
    };
    let repo = Repo::try_from(raw).ok().unwrap();
    assert_eq!("git@github.com:org/chord.git", repo.remote.as_str());
    assert_eq!("v1.0", repo.rev.as_str());
    assert_eq!("deps", repo.location.as_str());
    assert_eq!("other", repo.name.as_str());
}

#[test]
fn repo_errors_have_their_messages() {
    let e = Rev::try_from(String::new()).err().unwrap();
    assert_eq!(e.message(), "Rev length is 0");
    let e = Name::try_from(String::new()).err().unwrap();
    assert_eq!(e.message(), "Name length is 0");
    let e = Location::try_from(String::new()).err().unwrap();
    assert_eq!(e.message(), "Location length is 0");
    let e = Location::try_from(String::from("/etc")).err().unwrap();
    assert_eq!(e.message(), "Location must be relative to the Chord workspace topdir");
    let e = Remote::try_from(String::from("git://example.com/org/repo.git")).err().unwrap();
    assert_eq!(e.message(), "Unsupported git scheme: git");
    let e = Remote::try_from(String::from("file:///srv/repo.git")).err().unwrap();
    assert_eq!(e.message(), "Unsupported git scheme: file");
    let remote = Remote::try_from(String::from("https://example.com/org/.git")).ok().unwrap();
    let e = remote.repo_name().err().unwrap();
    assert_eq!(e.message(), "Could not derive repo name from remote: https://example.com/org/.git");
    let e = Remote::try_from(String::new()).err().unwrap();
    assert_eq!(e.message(), "local path \"\" does not specify a path to a repository");
}

#[test]
fn scheme_names() {
    assert_eq!(UrlScheme::Https.as_str(), "https");
    assert_eq!(UrlScheme::Ssh.as_str(), "ssh");
    assert_eq!(UrlScheme::Ext(String::from("scp")).as_str(), "scp");
}

#[test]
fn names_come_from_the_last_path_segment() {
    assert_eq!(name_from_path("/org/chord.git"), "chord");
    assert_eq!(name_from_path("/org/tool.git.git/"), "tool");
    assert_eq!(name_from_path("/org/.git"), "");
    assert_eq!(name_from_path("plain"), "plain");
}
