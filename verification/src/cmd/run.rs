//! Running a project: build it, serve what was built, and keep serving until
//! the user interrupts; then end the server and wait for it to go.

use crate::text::views;
use vstd::prelude::*;

verus! {

/// Which step of a run failed.
#[derive(Debug, Clone, Copy, PartialEq, Eq, Structural)]
pub enum RunErrorKind {
    Build,
    Serve,
}

/// The reasons a project can fail to run, each with a detail message.
#[derive(Debug)]
pub enum OsedaRunError {
    BuildError(String),
    ServeError(String),
}

/// An error as its kind and the characters of its detail message.
pub struct RunErrorView {
    pub kind: RunErrorKind,
    pub detail: Seq<char>,
}

impl View for OsedaRunError {
    type V = RunErrorView;

    open spec fn view(&self) -> RunErrorView {
        match self {
            OsedaRunError::BuildError(detail) => RunErrorView {
                kind: RunErrorKind::Build,
                detail: detail@,
            },
            OsedaRunError::ServeError(detail) => RunErrorView {
                kind: RunErrorKind::Serve,
                detail: detail@,
            },
        }
    }
}

impl RunErrorKind {
    /// How the message of an error of this kind begins.
    pub open spec fn heading(self) -> Seq<char> {
        match self {
            RunErrorKind::Build => "Oseda Build Error: "@,
            RunErrorKind::Serve => "Oseda Serve Error: "@,
        }
    }
}

impl OsedaRunError {
    /// The kind of the error.
    pub fn kind(&self) -> (kind: RunErrorKind)
        ensures
            kind == self@.kind,
    {
        match self {
            OsedaRunError::BuildError(_) => RunErrorKind::Build,
            OsedaRunError::ServeError(_) => RunErrorKind::Serve,
        }
    }

    /// The detail message of the error.
    pub fn detail(&self) -> (detail: &String)
        ensures
            detail@ == self@.detail,
    {
        match self {
            OsedaRunError::BuildError(detail) => detail,
            OsedaRunError::ServeError(detail) => detail,
        }
    }

    /// The full message: the heading of the kind, then the detail.
    pub fn message(&self) -> (text: String)
        ensures
            text@ == self@.kind.heading() + self@.detail,
    {
        let heading = match self {
            OsedaRunError::BuildError(_) => "Oseda Build Error: ",
            OsedaRunError::ServeError(_) => "Oseda Serve Error: ",
        };
        String::from_str(heading).concat(self.detail().as_str())
    }
}

/// The command that builds a project, program first.
pub open spec fn build_argv() -> Seq<Seq<char>> {
    seq!["npx"@, "vite"@, "build"@]
}

/// The command that serves a built project, program first.
pub open spec fn serve_argv() -> Seq<Seq<char>> {
    seq!["serve"@, "dist"@, "index.html"@]
}

/// The command that builds a project, program first.
pub fn build_command() -> (argv: Vec<String>)
    ensures
        views(argv@) == build_argv(),
{
    let mut argv: Vec<String> = Vec::new();
    argv.push("npx".to_owned());
    argv.push("vite".to_owned());
    argv.push("build".to_owned());
    assert(views(argv@) =~= build_argv());
    argv
}

/// The command that serves a built project, program first.
pub fn serve_command() -> (argv: Vec<String>)
    ensures
        views(argv@) == serve_argv(),
{
    let mut argv: Vec<String> = Vec::new();
    argv.push("serve".to_owned());
    argv.push("dist".to_owned());
    argv.push("index.html".to_owned());
    assert(views(argv@) =~= serve_argv());
    argv
}

/// How the build went.
#[derive(Debug, Clone, Copy, PartialEq, Eq, Structural)]
pub enum BuildOutcome {
    /// The build tool could not be started.
    NotLaunched,
    /// The build tool ran and reported failure.
    Failed,
    /// The build tool ran and reported success.
    Succeeded,
}

/// How far a run has come.
#[derive(Debug)]
pub enum RunStage {
    /// The project is yet to be built.
    Building,
    /// The build succeeded; the server is yet to be started.
    Serving,
    /// The server is up; the run lasts until the user interrupts.
    AwaitingInterrupt,
    /// The user interrupted; the server is yet to be told to end.
    Terminating,
    /// The server was told to end; it is yet to be waited for.
    Reaping,
    /// The run is over.
    Done(Result<(), OsedaRunError>),
}

/// A stage as data.
pub enum RunStageView {
    Building,
    Serving,
    AwaitingInterrupt,
    Terminating,
    Reaping,
    Done(Result<(), RunErrorView>),
}

impl View for RunStage {
    type V = RunStageView;

    open spec fn view(&self) -> RunStageView {
        match self {
            RunStage::Building => RunStageView::Building,
            RunStage::Serving => RunStageView::Serving,
            RunStage::AwaitingInterrupt => RunStageView::AwaitingInterrupt,
            RunStage::Terminating => RunStageView::Terminating,
            RunStage::Reaping => RunStageView::Reaping,
            RunStage::Done(Ok(_)) => RunStageView::Done(Ok(())),
            RunStage::Done(Err(err)) => RunStageView::Done(Err(err@)),
        }
    }
}

/// What the caller is to do next for a run.
#[derive(Debug, Clone, Copy, PartialEq, Eq, Structural)]
pub enum RunAction {
    /// Run the build command and wait for it to finish.
    Build,
    /// Start the serve command and let it run.
    Serve,
    /// Block until the user interrupts.
    AwaitInterrupt,
    /// Ask the server to end.
    Terminate,
    /// Wait for the server to be gone.
    Reap,
    /// Nothing more: take the result.
    Report,
}

/// What the caller observed when it did what was asked.
#[derive(Debug, Clone, Copy, PartialEq, Eq, Structural)]
pub enum RunEvent {
    BuildFinished(BuildOutcome),
    /// Whether the server could be started.
    ServeStarted(bool),
    Interrupted,
    /// The server was asked to end, or the attempt failed; the run does not
    /// depend on which.
    TerminateAttempted(bool),
    Reaped,
}

/// The error of a run whose build did not succeed.
pub open spec fn build_error() -> RunErrorView {
    RunErrorView { kind: RunErrorKind::Build, detail: "could not 'npx vite build'"@ }
}

/// The error of a run whose server could not be started.
pub open spec fn serve_error() -> RunErrorView {
    RunErrorView { kind: RunErrorKind::Serve, detail: "failed to start serve"@ }
}

/// The stage that follows `stage` once `event` was observed. An event that
/// does not answer what the stage is waiting for changes nothing.
pub open spec fn next_stage(stage: RunStageView, event: RunEvent) -> RunStageView {
    match (stage, event) {
        (RunStageView::Building, RunEvent::BuildFinished(outcome)) => if outcome
            == BuildOutcome::Succeeded {
            RunStageView::Serving
        } else {
            RunStageView::Done(Err(build_error()))
        },
        (RunStageView::Serving, RunEvent::ServeStarted(started)) => if started {
            RunStageView::AwaitingInterrupt
        } else {
            RunStageView::Done(Err(serve_error()))
        },
        (RunStageView::AwaitingInterrupt, RunEvent::Interrupted) => RunStageView::Terminating,
        (RunStageView::Terminating, RunEvent::TerminateAttempted(_)) => RunStageView::Reaping,
        (RunStageView::Reaping, RunEvent::Reaped) => RunStageView::Done(Ok(())),
        (stage, _) => stage,
    }
}

/// The stage reached from `stage` after a run of events, in order.
pub open spec fn stage_after(stage: RunStageView, events: Seq<RunEvent>) -> RunStageView
    decreases events.len(),
{
    if events.len() == 0 {
        stage
    } else {
        stage_after(next_stage(stage, events[0]), events.drop_first())
    }
}

/// The place of a stage in the order of a run.
pub open spec fn rank(stage: RunStageView) -> nat {
    match stage {
        RunStageView::Building => 0,
        RunStageView::Serving => 1,
        RunStageView::AwaitingInterrupt => 2,
        RunStageView::Terminating => 3,
        RunStageView::Reaping => 4,
        RunStageView::Done(_) => 5,
    }
}

impl RunStage {
    /// What the caller is to do next.
    pub open spec fn pending_action(&self) -> RunAction {
        match self {
            RunStage::Building => RunAction::Build,
            RunStage::Serving => RunAction::Serve,
            RunStage::AwaitingInterrupt => RunAction::AwaitInterrupt,
            RunStage::Terminating => RunAction::Terminate,
            RunStage::Reaping => RunAction::Reap,
            RunStage::Done(_) => RunAction::Report,
        }
    }

    /// A run that has not begun.
    pub fn new() -> (stage: RunStage)
        ensures
            stage@ == RunStageView::Building,
    {
        RunStage::Building
    }

    /// Tells the caller what to do next.
    pub fn pending(&self) -> (action: RunAction)
        ensures
            action == self.pending_action(),
    {
        match self {
            RunStage::Building => RunAction::Build,
            RunStage::Serving => RunAction::Serve,
            RunStage::AwaitingInterrupt => RunAction::AwaitInterrupt,
            RunStage::Terminating => RunAction::Terminate,
            RunStage::Reaping => RunAction::Reap,
            RunStage::Done(_) => RunAction::Report,
        }
    }

    /// Takes in what the caller observed and moves on.
    pub fn advance(self, event: RunEvent) -> (next: RunStage)
        ensures
            next@ == next_stage(self@, event),
    {
        match (self, event) {
            (RunStage::Building, RunEvent::BuildFinished(outcome)) => match outcome {
                BuildOutcome::Succeeded => RunStage::Serving,
                _ => RunStage::Done(
                    Err(OsedaRunError::BuildError("could not 'npx vite build'".to_owned())),
                ),
            },
            (RunStage::Serving, RunEvent::ServeStarted(started)) => if started {
                RunStage::AwaitingInterrupt
            } else {
                RunStage::Done(Err(OsedaRunError::ServeError("failed to start serve".to_owned())))
            },
            (RunStage::AwaitingInterrupt, RunEvent::Interrupted) => RunStage::Terminating,
            (RunStage::Terminating, RunEvent::TerminateAttempted(_)) => RunStage::Reaping,
            (RunStage::Reaping, RunEvent::Reaped) => RunStage::Done(Ok(())),
            (stage, _) => stage,
        }
    }

    /// The result, once the run is over.
    pub fn result(self) -> (result: Option<Result<(), OsedaRunError>>)
        ensures
            match result {
                Some(outcome) => self == RunStage::Done(outcome),
                None => !(self is Done),
            },
    {
        match self {
            RunStage::Done(outcome) => Some(outcome),
            _ => None,
        }
    }
}

/// A run never goes back: whatever is observed, the stage stays or moves
/// forward. So the build is asked for once, then the server once, and
/// neither is tried again.
pub proof fn lemma_run_never_goes_back(stage: RunStageView, events: Seq<RunEvent>)
    ensures
        rank(stage) <= rank(stage_after(stage, events)),
    decreases events.len(),
{
    if events.len() > 0 {
        lemma_run_never_goes_back(next_stage(stage, events[0]), events.drop_first());
    }
}

/// A run that is over stays as it is, whatever is observed afterwards.
pub proof fn lemma_done_is_final(outcome: Result<(), RunErrorView>, events: Seq<RunEvent>)
    ensures
        stage_after(RunStageView::Done(outcome), events) == RunStageView::Done(outcome),
    decreases events.len(),
{
    if events.len() > 0 {
        lemma_done_is_final(outcome, events.drop_first());
    }
}

/// A build that cannot be started or that fails ends the run at once with a
/// build error: the server is never started.
pub proof fn lemma_failed_build_ends_run(outcome: BuildOutcome, events: Seq<RunEvent>)
    requires
        outcome != BuildOutcome::Succeeded,
    ensures
        stage_after(RunStageView::Building, seq![RunEvent::BuildFinished(outcome)] + events)
            == RunStageView::Done(Err(build_error())),
{
    let all = seq![RunEvent::BuildFinished(outcome)] + events;
    assert(all.drop_first() =~= events);
    lemma_done_is_final(Err(build_error()), events);
}

/// Whether a successful build is among the events.
pub open spec fn saw_successful_build(events: Seq<RunEvent>) -> bool {
    exists|i: int|
        0 <= i < events.len() && #[trigger] events[i] == RunEvent::BuildFinished(
            BuildOutcome::Succeeded,
        )
}

/// From a run that has not built yet, a run of events leads to the server
/// being started or to anything behind that only if a successful build is
/// among them.
pub proof fn lemma_serve_needs_build(events: Seq<RunEvent>)
    requires
        !(stage_after(RunStageView::Building, events) is Building),
        !(stage_after(RunStageView::Building, events) matches RunStageView::Done(Err(err))
            && err.kind == RunErrorKind::Build),
    ensures
        saw_successful_build(events),
    decreases events.len(),
{
    if events.len() > 0 {
        let next = next_stage(RunStageView::Building, events[0]);
        let rest = events.drop_first();
        if next is Building {
            lemma_serve_needs_build(rest);
            let i = choose|i: int|
                0 <= i < rest.len() && #[trigger] rest[i] == RunEvent::BuildFinished(
                    BuildOutcome::Succeeded,
                );
            assert(events[i + 1] == rest[i]);
        } else if next is Done {
            lemma_done_is_final(Err(build_error()), rest);
        } else {
            assert(events[0] == RunEvent::BuildFinished(BuildOutcome::Succeeded));
        }
    }
}

/// Whether the server takes the request to end or not, the run goes on to
/// wait for it and then ends well.
pub proof fn lemma_termination_cannot_fail_run(asked: bool)
    ensures
        stage_after(
            RunStageView::Terminating,
            seq![RunEvent::TerminateAttempted(asked), RunEvent::Reaped],
        ) == RunStageView::Done(Ok(())),
{
    let events = seq![RunEvent::TerminateAttempted(asked), RunEvent::Reaped];
    assert(events.drop_first() =~= seq![RunEvent::Reaped]);
    assert(events.drop_first().drop_first() =~= Seq::<RunEvent>::empty());
    reveal_with_fuel(stage_after, 3);
}

} // verus!
