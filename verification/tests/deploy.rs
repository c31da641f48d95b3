use oseda_cli::categories::Category;
use oseda_cli::cmd::check::{CheckErrorKind, OsedaCheckError};
use oseda_cli::cmd::deploy::{
    git_args, DeployAction, DeployError, DeployEvent, DeployOptions, GitOutcome, GitStep,
    Publisher, SshUrl, COURSES_DIR,
};
use oseda_cli::config::{Descriptor, DirectoryName, OsedaConfig, ProjectSnapshot, Timestamp};

const NEW_YEAR_2024: Timestamp = Timestamp { secs: 1_704_067_200, nanos: 0 };
const DEPLOY_TIME: Timestamp = Timestamp { secs: 1_750_000_000, nanos: 42 };

fn strings(items: &[&str]) -> Vec<String> {
    items.iter().map(|s| s.to_string()).collect()
}

fn project(directory: &str) -> ProjectSnapshot {
    ProjectSnapshot {
        descriptor: Descriptor::Parsed(OsedaConfig {
            title: "algo-101".to_string(),
            author: "jdoe".to_string(),
            category: vec![Category::ComputerScience],
            last_updated: NEW_YEAR_2024,
        }),
        skip_git: false,
        git_name: Some("jdoe".to_string()),
        directory: DirectoryName::Named(directory.to_string()),
    }
}

fn remote() -> SshUrl {
    SshUrl::try_from("https://github.com/acct/repo/".to_string()).unwrap()
}

fn up_to_validation() -> Publisher {
    let publisher = Publisher::new(remote());
    assert_eq!(publisher.pending(), DeployAction::CreateStaging);
    let publisher = publisher.advance_at(DeployEvent::StagingCreated(Ok(())), NEW_YEAR_2024);
    assert_eq!(publisher.pending(), DeployAction::Git(GitStep::Clone));
    let publisher = publisher.advance_at(DeployEvent::GitFinished(GitOutcome::Succeeded), NEW_YEAR_2024);
    assert_eq!(publisher.pending(), DeployAction::Git(GitStep::SparseInit));
    let publisher = publisher.advance_at(DeployEvent::GitFinished(GitOutcome::Succeeded), NEW_YEAR_2024);
    assert_eq!(publisher.pending(), DeployAction::Git(GitStep::SparseSet));
    let publisher = publisher.advance_at(DeployEvent::GitFinished(GitOutcome::Succeeded), NEW_YEAR_2024);
    assert_eq!(publisher.pending(), DeployAction::Git(GitStep::Checkout));
    let publisher = publisher.advance_at(DeployEvent::GitFinished(GitOutcome::Succeeded), NEW_YEAR_2024);
    assert_eq!(publisher.pending(), DeployAction::ResolveProjectName);
    assert!(publisher.project_name().is_none());
    let publisher =
        publisher.advance_at(DeployEvent::NameResolved(Some("algo-101".to_string())), NEW_YEAR_2024);
    assert_eq!(publisher.pending(), DeployAction::CopyProject);
    assert_eq!(publisher.project_name(), Some(&"algo-101".to_string()));
    let publisher = publisher.advance_at(DeployEvent::ProjectCopied(Ok(())), NEW_YEAR_2024);
    assert_eq!(publisher.pending(), DeployAction::ReadProject);
    publisher
}

fn failure(publisher: Publisher) -> DeployError {
    assert_eq!(publisher.pending(), DeployAction::Report);
    match publisher.result() {
        Some(Err(err)) => err,
        other => panic!("did not fail: {:?}", other),
    }
}

#[test]
fn web_address_becomes_ssh_remote() {
    let url = SshUrl::try_from("https://github.com/acct/repo/".to_string()).unwrap();
    assert_eq!(url.as_str(), "git@github.com:acct/repo.git");
}

#[test]
fn ssh_remote_drops_all_trailing_slashes_only() {
    let of = |s: &str| SshUrl::try_from(s.to_string()).unwrap().as_str().to_string();
    assert_eq!(
        of("https://github.com/ReeseHatfield/oseda-lib-testing/"),
        "git@github.com:ReeseHatfield/oseda-lib-testing.git"
    );
    assert_eq!(of("https://github.com/acct/repo"), "git@github.com:acct/repo.git");
    assert_eq!(of("https://github.com/acct/repo///"), "git@github.com:acct/repo.git");
    assert_eq!(of("https://github.com/acct/repo/tree/main/"), "git@github.com:acct/repo/tree/main.git");
    assert_eq!(of("https://github.com/"), "git@github.com:.git");
    assert_eq!(of("https://example.org/team/deck/"), "git@example.org:team/deck.git");
}

#[test]
fn other_addresses_are_rejected() {
    for bad in [
        "",
        "http://github.com/acct/repo",
        "git@github.com:acct/repo.git",
        "ssh://git@github.com/acct/repo",
        "https://github.com",
        "https:///acct/repo",
        "https:/github.com/acct/repo",
        "HTTPS://github.com/acct/repo",
        " https://github.com/acct/repo",
        "ftp://github.com/acct/repo",
    ] {
        match SshUrl::try_from(bad.to_string()) {
            Err(DeployError::RemoteUrl) => {}
            other => panic!("{:?} gave {:?}", bad, other),
        }
    }
    assert_eq!(DeployError::RemoteUrl.message(), "Could not get SSH URL");
}

#[test]
fn deployment_starts_from_options() {
    let opts = DeployOptions::new("https://github.com/acct/repo/".to_string());
    assert_eq!(opts.fork_url(), "https://github.com/acct/repo/");
    let publisher = Publisher::from_options(opts).unwrap();
    assert_eq!(publisher.remote.as_str(), "git@github.com:acct/repo.git");
    assert_eq!(publisher.pending(), DeployAction::CreateStaging);
    let bad = Publisher::from_options(DeployOptions::new("acct/repo".to_string()));
    assert!(matches!(bad, Err(DeployError::RemoteUrl)));
}

#[test]
fn git_commands_of_a_deployment() {
    let remote = remote();
    assert_eq!(
        git_args(GitStep::Clone, &remote),
        strings(&["clone", "--no-checkout", "git@github.com:acct/repo.git", "."])
    );
    assert_eq!(git_args(GitStep::SparseInit, &remote), strings(&["sparse-checkout", "init", "--cone"]));
    assert_eq!(git_args(GitStep::SparseSet, &remote), strings(&["sparse-checkout", "set", "courses"]));
    assert_eq!(git_args(GitStep::Checkout, &remote), strings(&["checkout"]));
    assert_eq!(git_args(GitStep::Add, &remote), strings(&["add", "."]));
    assert_eq!(git_args(GitStep::Commit, &remote), strings(&["commit", "-m", "Add new course"]));
    assert_eq!(git_args(GitStep::Push, &remote), strings(&["push"]));
    assert_eq!(COURSES_DIR, "courses");
}

#[test]
fn a_valid_project_is_stamped_written_and_pushed() {
    let publisher = up_to_validation();
    assert!(publisher.config_to_write().is_none());
    let publisher = publisher.advance_at(DeployEvent::ProjectRead(project("algo-101")), DEPLOY_TIME);
    assert_eq!(publisher.pending(), DeployAction::WriteConfig);
    {
        let conf = publisher.config_to_write().unwrap();
        assert_eq!(conf.title, "algo-101");
        assert_eq!(conf.author, "jdoe");
        assert_eq!(conf.category, vec![Category::ComputerScience]);
        assert_eq!(conf.last_updated, DEPLOY_TIME);
    }
    let publisher = publisher.advance_at(DeployEvent::ConfigWritten(Ok(())), DEPLOY_TIME);
    assert_eq!(publisher.pending(), DeployAction::Git(GitStep::Add));
    let publisher = publisher.advance_at(DeployEvent::GitFinished(GitOutcome::Succeeded), DEPLOY_TIME);
    assert_eq!(publisher.pending(), DeployAction::Git(GitStep::Commit));
    let publisher = publisher.advance_at(DeployEvent::GitFinished(GitOutcome::Succeeded), DEPLOY_TIME);
    assert_eq!(publisher.pending(), DeployAction::Git(GitStep::Push));
    let publisher = publisher.advance_at(DeployEvent::GitFinished(GitOutcome::Succeeded), DEPLOY_TIME);
    assert_eq!(publisher.pending(), DeployAction::Report);
    assert!(matches!(publisher.result(), Some(Ok(()))));
}

#[test]
fn a_clock_behind_the_descriptor_does_not_move_it_back() {
    let earlier = Timestamp { secs: NEW_YEAR_2024.secs - 10, nanos: 0 };
    let publisher = up_to_validation().advance_at(DeployEvent::ProjectRead(project("algo-101")), earlier);
    assert_eq!(publisher.config_to_write().unwrap().last_updated, NEW_YEAR_2024);
}

#[test]
fn the_clock_is_read_when_none_is_given() {
    let publisher = up_to_validation().advance(DeployEvent::ProjectRead(project("algo-101")));
    assert_eq!(publisher.pending(), DeployAction::WriteConfig);
    let stamped = publisher.config_to_write().unwrap().last_updated;
    let now = chrono::Utc::now().timestamp();
    assert!((now - stamped.secs).abs() <= 5);
}

#[test]
fn an_invalid_project_is_never_pushed() {
    let publisher = up_to_validation().advance_at(DeployEvent::ProjectRead(project("algos")), DEPLOY_TIME);
    assert_eq!(publisher.pending(), DeployAction::Report);
    assert!(publisher.config_to_write().is_none());
    let publisher = publisher
        .advance_at(DeployEvent::ConfigWritten(Ok(())), DEPLOY_TIME)
        .advance_at(DeployEvent::GitFinished(GitOutcome::Succeeded), DEPLOY_TIME)
        .advance_at(DeployEvent::GitFinished(GitOutcome::Succeeded), DEPLOY_TIME)
        .advance_at(DeployEvent::GitFinished(GitOutcome::Succeeded), DEPLOY_TIME);
    match failure(publisher) {
        DeployError::Check(err) => {
            assert_eq!(err.kind(), CheckErrorKind::DirectoryNameMismatch);
            assert_eq!(err.detail(), "Config title does not match directory name");
        }
        other => panic!("unexpected error: {:?}", other),
    }
}

#[test]
fn a_failed_git_command_reports_its_arguments() {
    let publisher = Publisher::new(remote())
        .advance_at(DeployEvent::StagingCreated(Ok(())), NEW_YEAR_2024)
        .advance_at(DeployEvent::GitFinished(GitOutcome::Failed), NEW_YEAR_2024);
    let err = failure(publisher);
    assert_eq!(
        err.message(),
        "git [\"clone\", \"--no-checkout\", \"git@github.com:acct/repo.git\", \".\"] failed"
    );
    match err {
        DeployError::Git(args) => assert_eq!(
            args,
            strings(&["clone", "--no-checkout", "git@github.com:acct/repo.git", "."])
        ),
        other => panic!("unexpected error: {:?}", other),
    }

    let publisher = up_to_validation()
        .advance_at(DeployEvent::ProjectRead(project("algo-101")), DEPLOY_TIME)
        .advance_at(DeployEvent::ConfigWritten(Ok(())), DEPLOY_TIME)
        .advance_at(DeployEvent::GitFinished(GitOutcome::Succeeded), DEPLOY_TIME)
        .advance_at(DeployEvent::GitFinished(GitOutcome::Succeeded), DEPLOY_TIME)
        .advance_at(DeployEvent::GitFinished(GitOutcome::Failed), DEPLOY_TIME);
    assert_eq!(failure(publisher).message(), "git [\"push\"] failed");
}

#[test]
fn a_git_command_that_cannot_start_reports_its_arguments_and_the_reason() {
    let publisher = Publisher::new(remote())
        .advance_at(DeployEvent::StagingCreated(Ok(())), NEW_YEAR_2024)
        .advance_at(DeployEvent::GitFinished(GitOutcome::Succeeded), NEW_YEAR_2024)
        .advance_at(
            DeployEvent::GitFinished(GitOutcome::NotLaunched("No such file or directory".to_string())),
            NEW_YEAR_2024,
        );
    let err = failure(publisher);
    assert_eq!(
        err.message(),
        "git [\"sparse-checkout\", \"init\", \"--cone\"] could not be started: No such file or directory"
    );
    match err {
        DeployError::GitLaunch(args, detail) => {
            assert_eq!(args, strings(&["sparse-checkout", "init", "--cone"]));
            assert_eq!(detail, "No such file or directory");
        }
        other => panic!("unexpected error: {:?}", other),
    }
}

#[test]
fn each_failing_step_ends_the_deployment() {
    let publisher = Publisher::new(remote())
        .advance_at(DeployEvent::StagingCreated(Err("no space left".to_string())), NEW_YEAR_2024);
    let err = failure(publisher);
    assert!(matches!(err, DeployError::Staging(_)));
    assert_eq!(err.message(), "no space left");

    let publisher = Publisher::new(remote())
        .advance_at(DeployEvent::StagingCreated(Ok(())), NEW_YEAR_2024)
        .advance_at(DeployEvent::GitFinished(GitOutcome::Succeeded), NEW_YEAR_2024)
        .advance_at(DeployEvent::GitFinished(GitOutcome::Succeeded), NEW_YEAR_2024)
        .advance_at(DeployEvent::GitFinished(GitOutcome::Succeeded), NEW_YEAR_2024)
        .advance_at(DeployEvent::GitFinished(GitOutcome::Succeeded), NEW_YEAR_2024)
        .advance_at(DeployEvent::NameResolved(None), NEW_YEAR_2024);
    let err = failure(publisher);
    assert!(matches!(err, DeployError::ProjectName));
    assert_eq!(err.message(), "couldn't get directory name");

    let publisher = Publisher::new(remote())
        .advance_at(DeployEvent::StagingCreated(Ok(())), NEW_YEAR_2024)
        .advance_at(DeployEvent::GitFinished(GitOutcome::Succeeded), NEW_YEAR_2024)
        .advance_at(DeployEvent::GitFinished(GitOutcome::Succeeded), NEW_YEAR_2024)
        .advance_at(DeployEvent::GitFinished(GitOutcome::Succeeded), NEW_YEAR_2024)
        .advance_at(DeployEvent::GitFinished(GitOutcome::Succeeded), NEW_YEAR_2024)
        .advance_at(DeployEvent::NameResolved(Some("algo-101".to_string())), NEW_YEAR_2024)
        .advance_at(DeployEvent::ProjectCopied(Err("permission denied".to_string())), NEW_YEAR_2024);
    let err = failure(publisher);
    assert!(matches!(err, DeployError::Copy(_)));
    assert_eq!(err.message(), "permission denied");

    let publisher = up_to_validation()
        .advance_at(DeployEvent::ProjectRead(project("algo-101")), DEPLOY_TIME)
        .advance_at(DeployEvent::ConfigWritten(Err("read-only file system".to_string())), DEPLOY_TIME);
    let err = failure(publisher);
    assert!(matches!(err, DeployError::WriteConfig(_)));
    assert_eq!(err.message(), "read-only file system");
}

#[test]
fn deploy_events_out_of_turn_change_nothing() {
    let publisher = Publisher::new(remote())
        .advance_at(DeployEvent::GitFinished(GitOutcome::Succeeded), NEW_YEAR_2024)
        .advance_at(DeployEvent::ProjectRead(project("algo-101")), NEW_YEAR_2024)
        .advance_at(DeployEvent::ConfigWritten(Ok(())), NEW_YEAR_2024);
    assert_eq!(publisher.pending(), DeployAction::CreateStaging);
    assert!(publisher.result().is_none());
}

#[test]
fn check_errors_keep_their_message_in_a_deployment() {
    let err = DeployError::Check(OsedaCheckError::BadConfig("broken".to_string()));
    assert_eq!(err.message(), "Bad config file broken");
}

#[test]
fn steps_that_do_not_depend_on_the_time_go_the_same_way_with_the_clock() {
    let publisher = Publisher::new(remote())
        .advance(DeployEvent::StagingCreated(Ok(())))
        .advance(DeployEvent::GitFinished(GitOutcome::Succeeded))
        .advance(DeployEvent::GitFinished(GitOutcome::Succeeded))
        .advance(DeployEvent::GitFinished(GitOutcome::Succeeded))
        .advance(DeployEvent::GitFinished(GitOutcome::Succeeded))
        .advance(DeployEvent::NameResolved(Some("algo-101".to_string())))
        .advance(DeployEvent::ProjectCopied(Ok(())));
    assert_eq!(publisher.pending(), DeployAction::ReadProject);
    let publisher = publisher.advance(DeployEvent::ProjectRead(project("algos")));
    assert!(matches!(failure(publisher), DeployError::Check(_)));
}
