use oseda_cli::categories::Category;
use oseda_cli::cmd::check::{CheckErrorKind, OsedaCheckError};
use oseda_cli::config::{
    config_path, create_conf, create_conf_at, normalize_title, read_and_validate_config, skip_identity_check,
    stamp, title_is_long_enough, update_time, Descriptor, DirectoryName, OsedaConfig,
    ProjectSnapshot, Timestamp, CI_MARKER, CONFIG_FILE,
};

// 2024-01-01T00:00:00Z
const NEW_YEAR_2024: Timestamp = Timestamp { secs: 1_704_067_200, nanos: 0 };

fn algo_101() -> OsedaConfig {
    OsedaConfig {
        title: "algo-101".to_string(),
        author: "jdoe".to_string(),
        category: vec![Category::ComputerScience],
        last_updated: NEW_YEAR_2024,
    }
}

fn snapshot(directory: &str, git_name: Option<&str>, skip_git: bool) -> ProjectSnapshot {
    ProjectSnapshot {
        descriptor: Descriptor::Parsed(algo_101()),
        skip_git,
        git_name: git_name.map(|n| n.to_string()),
        directory: DirectoryName::Named(directory.to_string()),
    }
}

fn expect_error(result: Result<OsedaConfig, OsedaCheckError>) -> OsedaCheckError {
    match result {
        Ok(conf) => panic!("validation passed: {:?}", conf),
        Err(err) => err,
    }
}

#[test]
fn valid_project_is_returned_unchanged() {
    let conf = read_and_validate_config(snapshot("algo-101", Some("jdoe"), false)).unwrap();
    assert_eq!(conf.title, "algo-101");
    assert_eq!(conf.author, "jdoe");
    assert_eq!(conf.category, vec![Category::ComputerScience]);
    assert_eq!(conf.last_updated, NEW_YEAR_2024);
}

#[test]
fn directory_named_otherwise_is_a_mismatch() {
    let err = expect_error(read_and_validate_config(snapshot("algos", Some("jdoe"), false)));
    assert_eq!(err.kind(), CheckErrorKind::DirectoryNameMismatch);
    assert_eq!(err.detail(), "Config title does not match directory name");
    assert_eq!(
        err.message(),
        "Project name does not match directory Config title does not match directory name"
    );
}

#[test]
fn missing_descriptor_wins_over_everything_else() {
    for skip_git in [false, true] {
        for git_name in [None, Some("jdoe".to_string()), Some("other".to_string())] {
            for directory in [
                DirectoryName::Unavailable,
                DirectoryName::Unresolved,
                DirectoryName::Unreadable,
                DirectoryName::Named("algo-101".to_string()),
            ] {
                let err = expect_error(read_and_validate_config(ProjectSnapshot {
                    descriptor: Descriptor::Missing("/home/jdoe/algo-101".to_string()),
                    skip_git,
                    git_name: git_name.clone(),
                    directory,
                }));
                assert_eq!(err.kind(), CheckErrorKind::MissingConfig);
                assert_eq!(err.detail(), "Could not find config file in /home/jdoe/algo-101");
            }
        }
    }
}

#[test]
fn malformed_descriptor_is_a_bad_config() {
    let err = expect_error(read_and_validate_config(ProjectSnapshot {
        descriptor: Descriptor::Malformed,
        skip_git: true,
        git_name: None,
        directory: DirectoryName::Named("algo-101".to_string()),
    }));
    assert_eq!(err.kind(), CheckErrorKind::BadConfig);
    assert_eq!(err.detail(), "Could not parse oseda config file");
    assert_eq!(err.message(), "Bad config file Could not parse oseda config file");
}

#[test]
fn other_git_user_is_rejected_unless_skipped() {
    let err = expect_error(read_and_validate_config(snapshot("algo-101", Some("mallory"), false)));
    assert_eq!(err.kind(), CheckErrorKind::BadGitCredentials);
    assert_eq!(err.detail(), "Config author does not match git credentials");

    let conf = read_and_validate_config(snapshot("algo-101", Some("mallory"), true)).unwrap();
    assert_eq!(conf.author, "jdoe");
    let conf = read_and_validate_config(snapshot("algo-101", None, true)).unwrap();
    assert_eq!(conf.title, "algo-101");
}

#[test]
fn unknown_git_user_is_rejected() {
    let err = expect_error(read_and_validate_config(snapshot("algo-101", None, false)));
    assert_eq!(err.kind(), CheckErrorKind::BadGitCredentials);
    assert_eq!(err.detail(), "Could not get git user.name from git config");
    assert_eq!(
        err.message(),
        "Missing git credentials Could not get git user.name from git config"
    );
}

#[test]
fn identity_is_checked_before_the_directory() {
    let err = expect_error(read_and_validate_config(snapshot("algos", Some("mallory"), false)));
    assert_eq!(err.kind(), CheckErrorKind::BadGitCredentials);
    let err = expect_error(read_and_validate_config(snapshot("algos", Some("mallory"), true)));
    assert_eq!(err.kind(), CheckErrorKind::DirectoryNameMismatch);
}

#[test]
fn directory_lookup_failures_have_their_own_messages() {
    let with = |directory: DirectoryName| ProjectSnapshot {
        descriptor: Descriptor::Parsed(algo_101()),
        skip_git: false,
        git_name: Some("jdoe".to_string()),
        directory,
    };
    let err = expect_error(read_and_validate_config(with(DirectoryName::Unavailable)));
    assert_eq!(err.kind(), CheckErrorKind::DirectoryNameMismatch);
    assert_eq!(err.detail(), "Could not get path of working directory");
    let err = expect_error(read_and_validate_config(with(DirectoryName::Unresolved)));
    assert_eq!(err.kind(), CheckErrorKind::DirectoryNameMismatch);
    assert_eq!(err.detail(), "Could not resolve path name");
    let err = expect_error(read_and_validate_config(with(DirectoryName::Unreadable)));
    assert_eq!(err.kind(), CheckErrorKind::DirectoryNameMismatch);
    assert_eq!(err.detail(), "Config title does not match directory name");
}

#[test]
fn validation_is_repeatable() {
    for (directory, git_name, skip) in
        [("algo-101", Some("jdoe"), false), ("algos", Some("jdoe"), false), ("algo-101", None, false)]
    {
        let first = read_and_validate_config(snapshot(directory, git_name, skip));
        let second = read_and_validate_config(snapshot(directory, git_name, skip));
        match (first, second) {
            (Ok(a), Ok(b)) => {
                assert_eq!(a.title, b.title);
                assert_eq!(a.author, b.author);
                assert_eq!(a.category, b.category);
                assert_eq!(a.last_updated, b.last_updated);
            }
            (Err(a), Err(b)) => {
                assert_eq!(a.kind(), b.kind());
                assert_eq!(a.detail(), b.detail());
            }
            (a, b) => panic!("outcomes differ: {:?} and {:?}", a, b),
        }
    }
}

#[test]
fn identity_check_is_skipped_on_request_or_in_ci() {
    assert!(!skip_identity_check(false, None));
    assert!(skip_identity_check(true, None));
    assert!(skip_identity_check(false, Some("true")));
    assert!(skip_identity_check(true, Some("false")));
    assert!(!skip_identity_check(false, Some("false")));
    assert!(!skip_identity_check(false, Some("TRUE")));
    assert!(!skip_identity_check(false, Some("")));
    assert!(!skip_identity_check(false, Some("true ")));
    assert_eq!(CI_MARKER, "GITHUB_ACTIONS");
}

#[test]
fn descriptor_path() {
    assert_eq!(config_path("."), "./oseda-config.json");
    assert_eq!(config_path("algo-101"), "algo-101/oseda-config.json");
    assert_eq!(CONFIG_FILE, "oseda-config.json");
}

#[test]
fn titles_need_two_characters() {
    assert!(!title_is_long_enough(""));
    assert!(!title_is_long_enough("a"));
    assert!(!title_is_long_enough("é"));
    assert!(title_is_long_enough("ab"));
    assert!(title_is_long_enough("éé"));
    assert!(title_is_long_enough("algo 101"));
}

#[test]
fn titles_have_their_whitespace_hyphenated() {
    assert_eq!(normalize_title("algo 101"), "algo-101");
    assert_eq!(normalize_title("algo\t101"), "algo-101");
    assert_eq!(normalize_title("my first deck"), "my-first-deck");
    assert_eq!(normalize_title(" padded "), "-padded-");
    assert_eq!(normalize_title("\talgo 101\n"), "-algo-101-");
    assert_eq!(normalize_title("a\tb"), "a-b");
    assert_eq!(normalize_title("a\u{a0}b\u{3000}c"), "a-b-c");
    assert_eq!(normalize_title("\t\t"), "--");
    assert_eq!(normalize_title("plain"), "plain");
    assert_eq!(normalize_title("already-hyphened"), "already-hyphened");
    assert_eq!(normalize_title(""), "");
}

#[test]
fn stored_titles_hold_no_whitespace_and_keep_their_length() {
    for raw in ["algo 101", " a b ", "\r\n", "x\u{2003}y", "déjà vu", "no-space"] {
        let title = normalize_title(raw);
        assert!(!title.chars().any(|c| c.is_whitespace()), "{:?}", raw);
        assert_eq!(title.chars().count(), raw.chars().count());
        assert_eq!(normalize_title(&title), title);
    }
}

#[test]
fn stamp_moves_last_updated_forward_only() {
    let later = Timestamp { secs: NEW_YEAR_2024.secs + 86_400, nanos: 5 };
    let out = stamp(algo_101(), later);
    assert_eq!(out.last_updated, later);
    assert_eq!(out.title, "algo-101");
    assert_eq!(out.author, "jdoe");
    assert_eq!(out.category, vec![Category::ComputerScience]);

    let earlier = Timestamp { secs: NEW_YEAR_2024.secs - 1, nanos: 999_999_999 };
    assert_eq!(stamp(algo_101(), earlier).last_updated, NEW_YEAR_2024);
    assert_eq!(stamp(algo_101(), NEW_YEAR_2024).last_updated, NEW_YEAR_2024);

    let same_second = Timestamp { secs: NEW_YEAR_2024.secs, nanos: 1 };
    assert_eq!(stamp(algo_101(), same_second).last_updated, same_second);
}

#[test]
fn timestamps_order_by_seconds_then_nanoseconds() {
    let a = Timestamp { secs: 1, nanos: 900 };
    let b = Timestamp { secs: 2, nanos: 0 };
    let c = Timestamp { secs: 2, nanos: 1 };
    assert!(a.is_before(&b));
    assert!(b.is_before(&c));
    assert!(!b.is_before(&a));
    assert!(!c.is_before(&c));
    assert!(Timestamp { secs: -1, nanos: 0 }.is_before(&Timestamp { secs: 0, nanos: 0 }));
}

#[test]
fn update_time_reads_the_clock() {
    let out = update_time(algo_101());
    assert_eq!(out.title, "algo-101");
    assert_eq!(out.author, "jdoe");
    assert_eq!(out.category, vec![Category::ComputerScience]);
    assert!(NEW_YEAR_2024.is_before(&out.last_updated));
    let now = chrono::Utc::now().timestamp();
    assert!((now - out.last_updated.secs).abs() <= 5);
}

#[test]
fn new_descriptor_is_dated_with_the_given_time() {
    let now = Timestamp { secs: 1_750_000_000, nanos: 7 };
    let conf = create_conf_at(
        "algo\t101",
        vec![Category::Mathematics, Category::ComputerScience],
        Some("jdoe".to_string()),
        now,
    )
    .unwrap();
    assert_eq!(conf.title, "algo-101");
    assert_eq!(conf.author, "jdoe");
    assert_eq!(conf.category, vec![Category::Mathematics, Category::ComputerScience]);
    assert_eq!(conf.last_updated, now);

    let other = Timestamp { secs: -5, nanos: 0 };
    let conf = create_conf_at("algo 101", vec![], Some("jdoe".to_string()), other).unwrap();
    assert_eq!(conf.title, "algo-101");
    assert_eq!(conf.last_updated, other);

    let reason = create_conf_at("algo", vec![], None, now).unwrap_err();
    assert_eq!(
        reason,
        "Could not get github username. Please ensure you are signed into github"
    );
}

#[test]
fn new_descriptor_takes_the_git_user_as_author() {
    let conf =
        create_conf(" algo 101", vec![Category::Mathematics], Some("jdoe".to_string())).unwrap();
    assert_eq!(conf.title, "-algo-101");
    assert_eq!(conf.author, "jdoe");
    assert_eq!(conf.category, vec![Category::Mathematics]);
    assert!(NEW_YEAR_2024.is_before(&conf.last_updated));
    let now = chrono::Utc::now().timestamp();
    assert!((now - conf.last_updated.secs).abs() <= 5);
}

#[test]
fn new_descriptor_needs_a_git_user() {
    let reason = create_conf("algo", vec![], None).unwrap_err();
    assert_eq!(
        reason,
        "Could not get github username. Please ensure you are signed into github"
    );
}
