use oseda_cli::cmd::run::{
    build_command, serve_command, BuildOutcome, OsedaRunError, RunAction, RunErrorKind, RunEvent,
    RunStage,
};

#[test]
fn commands_of_a_run() {
    assert_eq!(build_command(), vec!["npx".to_string(), "vite".to_string(), "build".to_string()]);
    assert_eq!(
        serve_command(),
        vec!["serve".to_string(), "dist".to_string(), "index.html".to_string()]
    );
}

#[test]
fn a_run_builds_serves_waits_and_cleans_up() {
    let run = RunStage::new();
    assert_eq!(run.pending(), RunAction::Build);
    let run = run.advance(RunEvent::BuildFinished(BuildOutcome::Succeeded));
    assert_eq!(run.pending(), RunAction::Serve);
    let run = run.advance(RunEvent::ServeStarted(true));
    assert_eq!(run.pending(), RunAction::AwaitInterrupt);
    let run = run.advance(RunEvent::Interrupted);
    assert_eq!(run.pending(), RunAction::Terminate);
    let run = run.advance(RunEvent::TerminateAttempted(true));
    assert_eq!(run.pending(), RunAction::Reap);
    let run = run.advance(RunEvent::Reaped);
    assert_eq!(run.pending(), RunAction::Report);
    assert!(matches!(run.result(), Some(Ok(()))));
}

#[test]
fn a_failed_termination_does_not_fail_the_run() {
    let run = RunStage::new()
        .advance(RunEvent::BuildFinished(BuildOutcome::Succeeded))
        .advance(RunEvent::ServeStarted(true))
        .advance(RunEvent::Interrupted)
        .advance(RunEvent::TerminateAttempted(false));
    assert_eq!(run.pending(), RunAction::Reap);
    assert!(matches!(run.advance(RunEvent::Reaped).result(), Some(Ok(()))));
}

#[test]
fn a_failed_build_ends_the_run_without_serving() {
    for outcome in [BuildOutcome::Failed, BuildOutcome::NotLaunched] {
        let run = RunStage::new().advance(RunEvent::BuildFinished(outcome));
        assert_eq!(run.pending(), RunAction::Report);
        let run = run.advance(RunEvent::ServeStarted(true)).advance(RunEvent::Interrupted);
        assert_eq!(run.pending(), RunAction::Report);
        match run.result() {
            Some(Err(err)) => {
                assert_eq!(err.kind(), RunErrorKind::Build);
                assert_eq!(err.detail(), "could not 'npx vite build'");
                assert_eq!(err.message(), "Oseda Build Error: could not 'npx vite build'");
            }
            other => panic!("unexpected result: {:?}", other),
        }
    }
}

#[test]
fn a_server_that_does_not_start_ends_the_run() {
    let run = RunStage::new()
        .advance(RunEvent::BuildFinished(BuildOutcome::Succeeded))
        .advance(RunEvent::ServeStarted(false));
    assert_eq!(run.pending(), RunAction::Report);
    match run.result() {
        Some(Err(err)) => {
            assert_eq!(err.kind(), RunErrorKind::Serve);
            assert_eq!(err.detail(), "failed to start serve");
            assert_eq!(err.message(), "Oseda Serve Error: failed to start serve");
        }
        other => panic!("unexpected result: {:?}", other),
    }
}

#[test]
fn run_events_out_of_turn_change_nothing() {
    let run = RunStage::new()
        .advance(RunEvent::Interrupted)
        .advance(RunEvent::ServeStarted(true))
        .advance(RunEvent::Reaped)
        .advance(RunEvent::TerminateAttempted(true));
    assert_eq!(run.pending(), RunAction::Build);
    assert!(run.result().is_none());
    let run = RunStage::new()
        .advance(RunEvent::BuildFinished(BuildOutcome::Succeeded))
        .advance(RunEvent::BuildFinished(BuildOutcome::Failed));
    assert_eq!(run.pending(), RunAction::Serve);
}

#[test]
fn run_error_messages() {
    assert_eq!(OsedaRunError::BuildError("x".to_string()).message(), "Oseda Build Error: x");
    assert_eq!(OsedaRunError::ServeError("y".to_string()).message(), "Oseda Serve Error: y");
}
