use oseda_cli::categories::Category;
use oseda_cli::cmd::check::{
    check, CheckAction, CheckErrorKind, CheckEvent, CheckOptions, CheckStage, OsedaCheckError,
    OsedaProjectStatus, ReadinessCheck, DEFAULT_GRACE_MILLIS, DEFAULT_PORT,
};
use oseda_cli::config::{Descriptor, DirectoryName, OsedaConfig, ProjectSnapshot, Timestamp};
use oseda_cli::net::ProbeOutcome;

fn project(directory: &str) -> ProjectSnapshot {
    ProjectSnapshot {
        descriptor: Descriptor::Parsed(OsedaConfig {
            title: "algo-101".to_string(),
            author: "jdoe".to_string(),
            category: vec![Category::ComputerScience],
            last_updated: Timestamp { secs: 1_704_067_200, nanos: 0 },
        }),
        skip_git: false,
        git_name: Some("jdoe".to_string()),
        directory: DirectoryName::Named(directory.to_string()),
    }
}

fn up_to_probe(port: u16, grace: u64) -> ReadinessCheck {
    let check = ReadinessCheck::new(port, grace);
    assert_eq!(check.pending(), CheckAction::ReadProject);
    let check = check.advance(CheckEvent::ProjectRead(project("algo-101")));
    assert_eq!(check.pending(), CheckAction::LaunchRunner);
    let check = check.advance(CheckEvent::RunnerLaunched);
    assert_eq!(check.pending(), CheckAction::Wait { millis: grace });
    let check = check.advance(CheckEvent::GraceElapsed);
    assert_eq!(check.pending(), CheckAction::Probe { port });
    check
}

fn rejection(check: ReadinessCheck) -> OsedaCheckError {
    assert_eq!(check.pending(), CheckAction::Report);
    match check.verdict() {
        Some(OsedaProjectStatus::NotDeploymentReady(err)) => err,
        other => panic!("not rejected: {:?}", other),
    }
}

#[test]
fn options_default_to_port_3000() {
    assert_eq!(DEFAULT_PORT, 3000);
    assert_eq!(CheckOptions::default().port(), 3000);
    assert_eq!(CheckOptions::new(8080).port(), 8080);
    let check = ReadinessCheck::from_options(&CheckOptions::new(8080));
    assert_eq!(check.port, 8080);
    assert_eq!(check.grace_millis, DEFAULT_GRACE_MILLIS);
    assert_eq!(DEFAULT_GRACE_MILLIS, 10_000);
    assert_eq!(check.pending(), CheckAction::ReadProject);
}

#[test]
fn healthy_project_is_ready_and_its_port_reclaimed() {
    let check = up_to_probe(3000, 2_500);
    let check = check.advance(CheckEvent::ProbeFinished(ProbeOutcome::Answered(200)));
    assert_eq!(check.pending(), CheckAction::ReclaimPort { port: 3000 });
    let check = check.advance(CheckEvent::PortReclaimed(true));
    assert_eq!(check.pending(), CheckAction::Report);
    assert!(matches!(check.verdict(), Some(OsedaProjectStatus::DeployReady)));
}

#[test]
fn failing_to_reclaim_the_port_does_not_fail_the_check() {
    let check = up_to_probe(3000, 10_000);
    let check = check.advance(CheckEvent::ProbeFinished(ProbeOutcome::Answered(200)));
    let check = check.advance(CheckEvent::PortReclaimed(false));
    assert!(matches!(check.verdict(), Some(OsedaProjectStatus::DeployReady)));
}

#[test]
fn unreachable_project_is_not_ready() {
    let check = up_to_probe(3000, 5_000);
    let check = check.advance(CheckEvent::ProbeFinished(ProbeOutcome::Unreachable));
    let err = rejection(check);
    assert_eq!(err.kind(), CheckErrorKind::CouldNotPingLocalPresentation);
    assert_eq!(err.detail(), "Could not ping presentation");
    assert_eq!(
        err.message(),
        "Could not ping localhost after project was ran Could not ping presentation"
    );
}

#[test]
fn any_status_but_200_is_not_ready() {
    for status in [404u16, 500, 201, 301, 0] {
        let check = up_to_probe(3000, 5_000);
        let check = check.advance(CheckEvent::ProbeFinished(ProbeOutcome::Answered(status)));
        let err = rejection(check);
        assert_eq!(err.kind(), CheckErrorKind::CouldNotPingLocalPresentation);
        assert_eq!(err.detail(), "Presentation returned non 200 error status code");
    }
}

#[test]
fn invalid_project_is_rejected_before_anything_is_launched() {
    let check = ReadinessCheck::new(3000, 10_000);
    let check = check.advance(CheckEvent::ProjectRead(project("algos")));
    let err = rejection(check);
    assert_eq!(err.kind(), CheckErrorKind::DirectoryNameMismatch);
    assert_eq!(err.detail(), "Config title does not match directory name");
}

#[test]
fn events_out_of_turn_change_nothing() {
    let check = ReadinessCheck::new(3000, 10_000);
    let check = check.advance(CheckEvent::ProbeFinished(ProbeOutcome::Answered(200)));
    assert_eq!(check.pending(), CheckAction::ReadProject);
    let check = check.advance(CheckEvent::PortReclaimed(true));
    assert_eq!(check.pending(), CheckAction::ReadProject);
    let check = check.advance(CheckEvent::RunnerLaunched).advance(CheckEvent::GraceElapsed);
    assert_eq!(check.pending(), CheckAction::ReadProject);
    assert!(check.verdict().is_none());

    let check = up_to_probe(3000, 1);
    let check = check.advance(CheckEvent::ProjectRead(project("algos")));
    assert_eq!(check.pending(), CheckAction::Probe { port: 3000 });
}

#[test]
fn a_finished_check_stays_finished() {
    let check = up_to_probe(3000, 1);
    let check = check.advance(CheckEvent::ProbeFinished(ProbeOutcome::Unreachable));
    let check = check
        .advance(CheckEvent::ProbeFinished(ProbeOutcome::Answered(200)))
        .advance(CheckEvent::PortReclaimed(true));
    assert!(matches!(check.stage, CheckStage::Done(OsedaProjectStatus::NotDeploymentReady(_))));
}

#[test]
fn check_maps_the_verdict_to_a_result() {
    assert!(check(OsedaProjectStatus::DeployReady).is_ok());
    let err = check(OsedaProjectStatus::NotDeploymentReady(OsedaCheckError::BadConfig(
        "Could not parse oseda config file".to_string(),
    )))
    .unwrap_err();
    assert_eq!(err.kind(), CheckErrorKind::BadConfig);
    assert_eq!(err.detail(), "Could not parse oseda config file");
}

#[test]
fn every_error_kind_has_its_heading() {
    let detail = || "x".to_string();
    assert_eq!(OsedaCheckError::MissingConfig(detail()).message(), "Missing config file x");
    assert_eq!(OsedaCheckError::BadConfig(detail()).message(), "Bad config file x");
    assert_eq!(
        OsedaCheckError::BadGitCredentials(detail()).message(),
        "Missing git credentials x"
    );
    assert_eq!(
        OsedaCheckError::DirectoryNameMismatch(detail()).message(),
        "Project name does not match directory x"
    );
    assert_eq!(
        OsedaCheckError::CouldNotPingLocalPresentation(detail()).message(),
        "Could not ping localhost after project was ran x"
    );
}
