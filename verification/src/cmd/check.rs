//! Checking that a project is ready to be published: its descriptor is valid
//! and, once built and served, it answers on its port.

use crate::config::{read_and_validate_config, validation_error, ProjectSnapshot};
use crate::net::ProbeOutcome;
use vstd::prelude::*;

verus! {

/// The port a project is served on unless told otherwise.
pub const DEFAULT_PORT: u16 = 3000;

/// Options of the check command.
#[derive(Debug)]
pub struct CheckOptions {
    port: u16,
}

impl CheckOptions {
    /// Options that check the given port.
    pub fn new(port: u16) -> (opts: CheckOptions)
        ensures
            opts.port_spec() == port,
    {
        CheckOptions { port }
    }

    /// The port to look for the served project on.
    pub closed spec fn port_spec(&self) -> u16 {
        self.port
    }

    /// The port to look for the served project on.
    #[verifier::when_used_as_spec(port_spec)]
    pub fn port(&self) -> (port: u16)
        ensures
            port == self.port_spec(),
    {
        self.port
    }
}

impl Default for CheckOptions {
    fn default() -> (opts: CheckOptions)
        ensures
            opts.port_spec() == DEFAULT_PORT,
    {
        CheckOptions { port: DEFAULT_PORT }
    }
}

/// What went wrong, without the detail.
#[derive(Debug, Clone, Copy, PartialEq, Eq, Structural)]
pub enum CheckErrorKind {
    MissingConfig,
    BadConfig,
    BadGitCredentials,
    DirectoryNameMismatch,
    CouldNotPingLocalPresentation,
}

/// The reasons a project can fail its check, each with a detail message.
#[derive(Debug)]
pub enum OsedaCheckError {
    MissingConfig(String),
    BadConfig(String),
    BadGitCredentials(String),
    DirectoryNameMismatch(String),
    CouldNotPingLocalPresentation(String),
}

/// An error as its kind and the characters of its detail message.
pub struct CheckErrorView {
    pub kind: CheckErrorKind,
    pub detail: Seq<char>,
}

impl View for OsedaCheckError {
    type V = CheckErrorView;

    open spec fn view(&self) -> CheckErrorView {
        match self {
            OsedaCheckError::MissingConfig(detail) => CheckErrorView {
                kind: CheckErrorKind::MissingConfig,
                detail: detail@,
            },
            OsedaCheckError::BadConfig(detail) => CheckErrorView {
                kind: CheckErrorKind::BadConfig,
                detail: detail@,
            },
            OsedaCheckError::BadGitCredentials(detail) => CheckErrorView {
                kind: CheckErrorKind::BadGitCredentials,
                detail: detail@,
            },
            OsedaCheckError::DirectoryNameMismatch(detail) => CheckErrorView {
                kind: CheckErrorKind::DirectoryNameMismatch,
                detail: detail@,
            },
            OsedaCheckError::CouldNotPingLocalPresentation(detail) => CheckErrorView {
                kind: CheckErrorKind::CouldNotPingLocalPresentation,
                detail: detail@,
            },
        }
    }
}

impl CheckErrorKind {
    /// How the message of an error of this kind begins.
    pub open spec fn heading(self) -> Seq<char> {
        match self {
            CheckErrorKind::MissingConfig => "Missing config file "@,
            CheckErrorKind::BadConfig => "Bad config file "@,
            CheckErrorKind::BadGitCredentials => "Missing git credentials "@,
            CheckErrorKind::DirectoryNameMismatch => "Project name does not match directory "@,
            CheckErrorKind::CouldNotPingLocalPresentation =>
                "Could not ping localhost after project was ran "@,
        }
    }
}

impl OsedaCheckError {
    /// The kind of the error.
    pub fn kind(&self) -> (kind: CheckErrorKind)
        ensures
            kind == self@.kind,
    {
        match self {
            OsedaCheckError::MissingConfig(_) => CheckErrorKind::MissingConfig,
            OsedaCheckError::BadConfig(_) => CheckErrorKind::BadConfig,
            OsedaCheckError::BadGitCredentials(_) => CheckErrorKind::BadGitCredentials,
            OsedaCheckError::DirectoryNameMismatch(_) => CheckErrorKind::DirectoryNameMismatch,
            OsedaCheckError::CouldNotPingLocalPresentation(_) =>
                CheckErrorKind::CouldNotPingLocalPresentation,
        }
    }

    /// The detail message of the error.
    pub fn detail(&self) -> (detail: &String)
        ensures
            detail@ == self@.detail,
    {
        match self {
            OsedaCheckError::MissingConfig(detail) => detail,
            OsedaCheckError::BadConfig(detail) => detail,
            OsedaCheckError::BadGitCredentials(detail) => detail,
            OsedaCheckError::DirectoryNameMismatch(detail) => detail,
            OsedaCheckError::CouldNotPingLocalPresentation(detail) => detail,
        }
    }

    /// The full message: the heading of the kind, then the detail.
    pub fn message(&self) -> (text: String)
        ensures
            text@ == self@.kind.heading() + self@.detail,
    {
        let heading = match self {
            OsedaCheckError::MissingConfig(_) => "Missing config file ",
            OsedaCheckError::BadConfig(_) => "Bad config file ",
            OsedaCheckError::BadGitCredentials(_) => "Missing git credentials ",
            OsedaCheckError::DirectoryNameMismatch(_) => "Project name does not match directory ",
            OsedaCheckError::CouldNotPingLocalPresentation(_) =>
                "Could not ping localhost after project was ran ",
        };
        String::from_str(heading).concat(self.detail().as_str())
    }
}

/// Whether a project may be published.
#[derive(Debug)]
pub enum OsedaProjectStatus {
    DeployReady,
    NotDeploymentReady(OsedaCheckError),
}

/// A status as data: ready, or the view of what stands in the way.
pub enum ProjectStatusView {
    DeployReady,
    NotDeploymentReady(CheckErrorView),
}

impl View for OsedaProjectStatus {
    type V = ProjectStatusView;

    open spec fn view(&self) -> ProjectStatusView {
        match self {
            OsedaProjectStatus::DeployReady => ProjectStatusView::DeployReady,
            OsedaProjectStatus::NotDeploymentReady(err) => ProjectStatusView::NotDeploymentReady(
                err@,
            ),
        }
    }
}

/// Turns the verdict of a check into the result of the command: success
/// exactly when the project is ready, otherwise the error that the verdict
/// carries, untouched.
pub fn check(status: OsedaProjectStatus) -> (result: Result<(), OsedaCheckError>)
    ensures
        match status {
            OsedaProjectStatus::DeployReady => result is Ok,
            OsedaProjectStatus::NotDeploymentReady(err) => result == Err::<(), OsedaCheckError>(err),
        },
{
    match status {
        OsedaProjectStatus::DeployReady => Ok(()),
        OsedaProjectStatus::NotDeploymentReady(err) => Err(err),
    }
}

/// How long the runner is given to build and start serving before the
/// probe, in milliseconds, unless told otherwise.
pub const DEFAULT_GRACE_MILLIS: u64 = 10_000;

/// How far a check has come.
#[derive(Debug)]
pub enum CheckStage {
    /// The project is yet to be read and validated.
    Validating,
    /// The descriptor is valid; the runner is yet to be launched.
    Launching,
    /// The runner was launched; it is being given time to come up.
    Waiting,
    /// The grace period is over; the project is yet to be probed.
    Probing,
    /// The project answered well; its port is yet to be reclaimed.
    Reclaiming,
    /// The check is over.
    Done(OsedaProjectStatus),
}

/// A stage as data.
pub enum CheckStageView {
    Validating,
    Launching,
    Waiting,
    Probing,
    Reclaiming,
    Done(ProjectStatusView),
}

impl View for CheckStage {
    type V = CheckStageView;

    open spec fn view(&self) -> CheckStageView {
        match self {
            CheckStage::Validating => CheckStageView::Validating,
            CheckStage::Launching => CheckStageView::Launching,
            CheckStage::Waiting => CheckStageView::Waiting,
            CheckStage::Probing => CheckStageView::Probing,
            CheckStage::Reclaiming => CheckStageView::Reclaiming,
            CheckStage::Done(status) => CheckStageView::Done(status@),
        }
    }
}

/// What the caller is to do next for a check.
#[derive(Debug, Clone, Copy, PartialEq, Eq, Structural)]
pub enum CheckAction {
    /// Read the project and its surroundings into a snapshot.
    ReadProject,
    /// Start building and serving the project in the background, and do not
    /// wait for it.
    LaunchRunner,
    /// Sleep this long.
    Wait { millis: u64 },
    /// Send one GET request to the project on this port.
    Probe { port: u16 },
    /// End whatever process holds this port.
    ReclaimPort { port: u16 },
    /// Nothing more: take the verdict.
    Report,
}

/// What the caller observed when it did what was asked.
#[derive(Debug)]
pub enum CheckEvent {
    ProjectRead(ProjectSnapshot),
    RunnerLaunched,
    GraceElapsed,
    ProbeFinished(ProbeOutcome),
    /// The port was reclaimed, or the attempt failed; the check does not
    /// depend on which.
    PortReclaimed(bool),
}

/// The error for a probe that did not find the project well.
pub open spec fn probe_error(outcome: ProbeOutcome) -> CheckErrorView {
    CheckErrorView {
        kind: CheckErrorKind::CouldNotPingLocalPresentation,
        detail: match outcome {
            ProbeOutcome::Unreachable => "Could not ping presentation"@,
            ProbeOutcome::Answered(_) => "Presentation returned non 200 error status code"@,
        },
    }
}

/// The stage that follows `stage` once `event` was observed. An event that
/// does not answer what the stage is waiting for changes nothing.
pub open spec fn next_stage(stage: CheckStageView, event: CheckEvent) -> CheckStageView {
    match (stage, event) {
        (CheckStageView::Validating, CheckEvent::ProjectRead(snapshot)) => match validation_error(
            snapshot,
        ) {
            Some(err) => CheckStageView::Done(ProjectStatusView::NotDeploymentReady(err)),
            None => CheckStageView::Launching,
        },
        (CheckStageView::Launching, CheckEvent::RunnerLaunched) => CheckStageView::Waiting,
        (CheckStageView::Waiting, CheckEvent::GraceElapsed) => CheckStageView::Probing,
        (CheckStageView::Probing, CheckEvent::ProbeFinished(outcome)) => if outcome.healthy() {
            CheckStageView::Reclaiming
        } else {
            CheckStageView::Done(ProjectStatusView::NotDeploymentReady(probe_error(outcome)))
        },
        (CheckStageView::Reclaiming, CheckEvent::PortReclaimed(_)) => CheckStageView::Done(
            ProjectStatusView::DeployReady,
        ),
        (stage, _) => stage,
    }
}

/// The stage reached from `stage` after a run of events, in order.
pub open spec fn stage_after(stage: CheckStageView, events: Seq<CheckEvent>) -> CheckStageView
    decreases events.len(),
{
    if events.len() == 0 {
        stage
    } else {
        stage_after(next_stage(stage, events[0]), events.drop_first())
    }
}

/// A readiness check in progress: which port it looks at, how long it lets
/// the runner come up, and how far it has come.
#[derive(Debug)]
pub struct ReadinessCheck {
    pub port: u16,
    pub grace_millis: u64,
    pub stage: CheckStage,
}

impl ReadinessCheck {
    /// What the caller is to do next.
    pub open spec fn pending_action(&self) -> CheckAction {
        match self.stage {
            CheckStage::Validating => CheckAction::ReadProject,
            CheckStage::Launching => CheckAction::LaunchRunner,
            CheckStage::Waiting => CheckAction::Wait { millis: self.grace_millis },
            CheckStage::Probing => CheckAction::Probe { port: self.port },
            CheckStage::Reclaiming => CheckAction::ReclaimPort { port: self.port },
            CheckStage::Done(_) => CheckAction::Report,
        }
    }

    /// A check of `port` that has not begun.
    pub fn new(port: u16, grace_millis: u64) -> (check: ReadinessCheck)
        ensures
            check.port == port,
            check.grace_millis == grace_millis,
            check.stage@ == CheckStageView::Validating,
    {
        ReadinessCheck { port, grace_millis, stage: CheckStage::Validating }
    }

    /// A check as the options ask for it, with the default grace period.
    pub fn from_options(opts: &CheckOptions) -> (check: ReadinessCheck)
        ensures
            check.port == opts.port(),
            check.grace_millis == DEFAULT_GRACE_MILLIS,
            check.stage@ == CheckStageView::Validating,
    {
        ReadinessCheck::new(opts.port(), DEFAULT_GRACE_MILLIS)
    }

    /// Tells the caller what to do next.
    pub fn pending(&self) -> (action: CheckAction)
        ensures
            action == self.pending_action(),
    {
        match &self.stage {
            CheckStage::Validating => CheckAction::ReadProject,
            CheckStage::Launching => CheckAction::LaunchRunner,
            CheckStage::Waiting => CheckAction::Wait { millis: self.grace_millis },
            CheckStage::Probing => CheckAction::Probe { port: self.port },
            CheckStage::Reclaiming => CheckAction::ReclaimPort { port: self.port },
            CheckStage::Done(_) => CheckAction::Report,
        }
    }

    /// Takes in what the caller observed and moves on.
    pub fn advance(self, event: CheckEvent) -> (next: ReadinessCheck)
        ensures
            next.port == self.port,
            next.grace_millis == self.grace_millis,
            next.stage@ == next_stage(self.stage@, event),
    {
        let ReadinessCheck { port, grace_millis, stage } = self;
        let stage = match (stage, event) {
            (CheckStage::Validating, CheckEvent::ProjectRead(snapshot)) => {
                match read_and_validate_config(snapshot) {
                    Ok(_) => CheckStage::Launching,
                    Err(err) => CheckStage::Done(OsedaProjectStatus::NotDeploymentReady(err)),
                }
            },
            (CheckStage::Launching, CheckEvent::RunnerLaunched) => CheckStage::Waiting,
            (CheckStage::Waiting, CheckEvent::GraceElapsed) => CheckStage::Probing,
            (CheckStage::Probing, CheckEvent::ProbeFinished(outcome)) => {
                if outcome.is_healthy() {
                    CheckStage::Reclaiming
                } else {
                    let detail = match outcome {
                        ProbeOutcome::Unreachable => "Could not ping presentation",
                        ProbeOutcome::Answered(_) =>
                            "Presentation returned non 200 error status code",
                    };
                    CheckStage::Done(
                        OsedaProjectStatus::NotDeploymentReady(
                            OsedaCheckError::CouldNotPingLocalPresentation(detail.to_owned()),
                        ),
                    )
                }
            },
            (CheckStage::Reclaiming, CheckEvent::PortReclaimed(_)) => CheckStage::Done(
                OsedaProjectStatus::DeployReady,
            ),
            (stage, _) => stage,
        };
        ReadinessCheck { port, grace_millis, stage }
    }

    /// The verdict, once the check is over.
    pub fn verdict(self) -> (verdict: Option<OsedaProjectStatus>)
        ensures
            match verdict {
                Some(status) => self.stage == CheckStage::Done(status),
                None => !(self.stage is Done),
            },
    {
        match self.stage {
            CheckStage::Done(status) => Some(status),
            _ => None,
        }
    }
}

/// Whether a healthy probe is among the events.
pub open spec fn saw_healthy_probe(events: Seq<CheckEvent>) -> bool {
    exists|i: int|
        0 <= i < events.len() && (#[trigger] events[i] matches CheckEvent::ProbeFinished(outcome)
            && outcome.healthy())
}

/// From any stage before the port is reclaimed, a run of events ends in
/// "ready" only if a healthy probe is among them.
proof fn lemma_ready_needs_probe(stage: CheckStageView, events: Seq<CheckEvent>)
    requires
        stage != CheckStageView::Reclaiming,
        stage != CheckStageView::Done(ProjectStatusView::DeployReady),
        stage_after(stage, events) == CheckStageView::Done(ProjectStatusView::DeployReady),
    ensures
        saw_healthy_probe(events),
    decreases events.len(),
{
    if events.len() > 0 {
        let next = next_stage(stage, events[0]);
        let rest = events.drop_first();
        if next == CheckStageView::Reclaiming {
            assert(events[0] matches CheckEvent::ProbeFinished(outcome) && outcome.healthy());
        } else {
            lemma_ready_needs_probe(next, rest);
            let i = choose|i: int|
                0 <= i < rest.len() && (#[trigger] rest[i] matches CheckEvent::ProbeFinished(
                    outcome,
                ) && outcome.healthy());
            assert(events[i + 1] == rest[i]);
        }
    }
}

/// A check ends in "ready" only if the probe saw the project answer with
/// status 200.
pub proof fn lemma_ready_only_after_healthy_probe(events: Seq<CheckEvent>)
    requires
        stage_after(CheckStageView::Validating, events) == CheckStageView::Done(
            ProjectStatusView::DeployReady,
        ),
    ensures
        saw_healthy_probe(events),
{
    lemma_ready_needs_probe(CheckStageView::Validating, events);
}

/// A probe that cannot reach the project, or gets any status but 200, ends
/// the check at once as "not ready", for the reason that the project could
/// not be pinged. Only a healthy probe leads on, to reclaiming the port.
pub proof fn lemma_probe_decides(outcome: ProbeOutcome)
    ensures
        outcome.healthy() ==> next_stage(
            CheckStageView::Probing,
            CheckEvent::ProbeFinished(outcome),
        ) == CheckStageView::Reclaiming,
        !outcome.healthy() ==> next_stage(
            CheckStageView::Probing,
            CheckEvent::ProbeFinished(outcome),
        ) == CheckStageView::Done(ProjectStatusView::NotDeploymentReady(probe_error(outcome))),
        probe_error(outcome).kind == CheckErrorKind::CouldNotPingLocalPresentation,
{
}

/// A project that fails validation ends the check at once, with the error of
/// the validation untouched; nothing is launched.
pub proof fn lemma_invalid_project_ends_check(snapshot: ProjectSnapshot)
    requires
        validation_error(snapshot) is Some,
    ensures
        next_stage(CheckStageView::Validating, CheckEvent::ProjectRead(snapshot))
            == CheckStageView::Done(
            ProjectStatusView::NotDeploymentReady(validation_error(snapshot)->0),
        ),
{
}

/// Whether the port is reclaimed or the attempt fails, the verdict is
/// "ready".
pub proof fn lemma_reclaiming_cannot_fail_check(reclaimed: bool)
    ensures
        next_stage(CheckStageView::Reclaiming, CheckEvent::PortReclaimed(reclaimed))
            == CheckStageView::Done(ProjectStatusView::DeployReady),
{
}

/// A check that is over stays as it is, whatever is observed afterwards.
pub proof fn lemma_done_is_final(status: ProjectStatusView, events: Seq<CheckEvent>)
    ensures
        stage_after(CheckStageView::Done(status), events) == CheckStageView::Done(status),
    decreases events.len(),
{
    if events.len() > 0 {
        lemma_done_is_final(status, events.drop_first());
    }
}

} // verus!
