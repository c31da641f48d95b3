//! Publishing a project: the project tree is copied into a sparse clone of
//! the remote repository and pushed from there. Every step must succeed for
//! the next to be taken.

use crate::cmd::check::{CheckErrorView, OsedaCheckError};
use crate::config::{
    get_time, read_and_validate_config, stamp, stamped, validation_error, ConfigView, Descriptor,
    OsedaConfig, ProjectSnapshot, Timestamp,
};
use crate::text::{
    chars_of, cut_trailing, drop_trailing, find_char, find_from, lemma_find_from,
    lemma_find_from_is, starts_with, string_of, views,
};
use vstd::prelude::*;
use vstd::slice::slice_subrange;

verus! {

/// Options of the deploy command.
#[derive(Debug)]
pub struct DeployOptions {
    fork_url: String,
}

impl DeployOptions {
    /// Options that deploy to the given remote.
    pub fn new(fork_url: String) -> (opts: DeployOptions)
        ensures
            opts.fork_url_spec() == fork_url,
    {
        DeployOptions { fork_url }
    }

    /// The remote to deploy to, as the user gave it.
    pub closed spec fn fork_url_spec(&self) -> String {
        self.fork_url
    }

    /// The remote to deploy to, as the user gave it.
    pub fn fork_url(&self) -> (url: &String)
        ensures
            *url == self.fork_url_spec(),
    {
        &self.fork_url
    }

    /// Gives the remote up.
    pub fn into_fork_url(self) -> (url: String)
        ensures
            url == self.fork_url_spec(),
    {
        self.fork_url
    }
}

/// The directory of the remote repository that projects are published into,
/// and the only one that is checked out.
pub const COURSES_DIR: &'static str = "courses";

/// The secure-shell form of a web address of a repository:
/// `https://<host>/<path>` becomes `git@<host>:<path>.git`, with the slashes
/// at the end of the path dropped. The host must not be empty. Anything else
/// has no secure-shell form.
pub open spec fn ssh_remote(url: Seq<char>) -> Option<Seq<char>> {
    let scheme = "https://"@;
    let rest = url.skip(scheme.len() as int);
    let slash = find_from(rest, '/', 0);
    if scheme.is_prefix_of(url) && 0 < slash < rest.len() {
        let host = rest.take(slash);
        let path = rest.skip(slash + 1);
        Some(
            "git@"@ + host + ":"@ + path.take(drop_trailing(path, '/', path.len() as int))
                + ".git"@,
        )
    } else {
        None
    }
}

/// The web address of the repository at `path` on `host`.
pub open spec fn web_address(host: Seq<char>, path: Seq<char>) -> Seq<char> {
    "https://"@ + host + seq!['/'] + path
}

/// Whether `url` is the web address of a repository: `https://`, a host that
/// is not empty and holds no slash, a slash, and a path.
pub open spec fn is_web_address(url: Seq<char>) -> bool {
    exists|host: Seq<char>, path: Seq<char>|
        host.len() > 0 && !host.contains('/') && url == #[trigger] web_address(host, path)
}

/// A web address made of a host and a path has the secure-shell form made
/// of the same host and the path without the slashes at its end.
pub proof fn lemma_ssh_remote_of_parts(host: Seq<char>, path: Seq<char>)
    requires
        host.len() > 0,
        !host.contains('/'),
    ensures
        ssh_remote(web_address(host, path)) == Some(
            "git@"@ + host + ":"@ + path.take(drop_trailing(path, '/', path.len() as int))
                + ".git"@,
        ),
{
    let scheme = "https://"@;
    let url = web_address(host, path);
    let rest = url.skip(scheme.len() as int);
    assert(url.subrange(0, scheme.len() as int) =~= scheme);
    assert(rest =~= host + seq!['/'] + path);
    assert forall|j: int| 0 <= j < host.len() implies rest[j] != '/' by {
        assert(host.contains(host[j]));
    }
    lemma_find_from_is(rest, '/', 0, host.len() as int);
    assert(rest.take(host.len() as int) =~= host);
    assert(rest.skip(host.len() as int + 1) =~= path);
}

/// The addresses that have a secure-shell form are exactly the web addresses
/// of repositories; every other address is rejected.
pub proof fn lemma_ssh_remote_accepts_web_addresses(url: Seq<char>)
    ensures
        ssh_remote(url) is Some <==> is_web_address(url),
{
    let scheme = "https://"@;
    let rest = url.skip(scheme.len() as int);
    let slash = find_from(rest, '/', 0);
    if ssh_remote(url) is Some {
        lemma_find_from(rest, '/', 0);
        let host = rest.take(slash);
        let path = rest.skip(slash + 1);
        assert(url.subrange(0, scheme.len() as int) == scheme);
        assert(url =~= web_address(host, path));
        assert(!host.contains('/'));
    }
    if is_web_address(url) {
        let (host, path) = choose|host: Seq<char>, path: Seq<char>|
            host.len() > 0 && !host.contains('/') && url == #[trigger] web_address(host, path);
        lemma_ssh_remote_of_parts(host, path);
    }
}

/// The address of a remote in its secure-shell form. The only way to one is
/// through [`SshUrl::try_from`].
#[derive(Debug)]
pub struct SshUrl(String);

impl View for SshUrl {
    type V = Seq<char>;

    closed spec fn view(&self) -> Seq<char> {
        self.0@
    }
}

/// Why a deployment failed.
#[derive(Debug)]
pub enum DeployError {
    /// The remote is not a web address of a repository.
    RemoteUrl,
    /// The staging directory could not be created.
    Staging(String),
    /// A git command ran and reported failure; these are its arguments.
    Git(Vec<String>),
    /// A git command could not be started; these are its arguments, and why.
    GitLaunch(Vec<String>, String),
    /// The project directory has no name to publish under.
    ProjectName,
    /// The project tree could not be copied.
    Copy(String),
    /// The project did not pass validation.
    Check(OsedaCheckError),
    /// The descriptor could not be written back.
    WriteConfig(String),
}

/// A deployment error as data.
pub enum DeployErrorView {
    RemoteUrl,
    Staging(Seq<char>),
    Git(Seq<Seq<char>>),
    GitLaunch(Seq<Seq<char>>, Seq<char>),
    ProjectName,
    Copy(Seq<char>),
    Check(CheckErrorView),
    WriteConfig(Seq<char>),
}

impl View for DeployError {
    type V = DeployErrorView;

    open spec fn view(&self) -> DeployErrorView {
        match self {
            DeployError::RemoteUrl => DeployErrorView::RemoteUrl,
            DeployError::Staging(detail) => DeployErrorView::Staging(detail@),
            DeployError::Git(args) => DeployErrorView::Git(views(args@)),
            DeployError::GitLaunch(args, detail) => DeployErrorView::GitLaunch(
                views(args@),
                detail@,
            ),
            DeployError::ProjectName => DeployErrorView::ProjectName,
            DeployError::Copy(detail) => DeployErrorView::Copy(detail@),
            DeployError::Check(err) => DeployErrorView::Check(err@),
            DeployError::WriteConfig(detail) => DeployErrorView::WriteConfig(detail@),
        }
    }
}

/// The text that the standard library's `Debug` formatting gives for a list
/// of strings.
pub uninterp spec fn debug_form(args: Seq<Seq<char>>) -> Seq<char>;

/// Formats a list of strings for diagnosis.
///
/// Wraps the standard library's `Debug` formatting of a `Vec<String>`, whose
/// result depends on the strings alone.
#[verifier::external_body]
fn debug_list(args: &Vec<String>) -> (text: String)
    ensures
        text@ == debug_form(views(args@)),
{
    format!("{:?}", args)
}

impl DeployErrorView {
    /// The message of the error.
    pub open spec fn message(self) -> Seq<char> {
        match self {
            DeployErrorView::RemoteUrl => "Could not get SSH URL"@,
            DeployErrorView::Staging(detail) => detail,
            DeployErrorView::Git(args) => "git "@ + debug_form(args) + " failed"@,
            DeployErrorView::GitLaunch(args, detail) => "git "@ + debug_form(args)
                + " could not be started: "@ + detail,
            DeployErrorView::ProjectName => "couldn't get directory name"@,
            DeployErrorView::Copy(detail) => detail,
            DeployErrorView::Check(err) => err.kind.heading() + err.detail,
            DeployErrorView::WriteConfig(detail) => detail,
        }
    }
}

impl DeployError {
    /// The message of the error. A git command that failed or could not be
    /// started is named with its arguments.
    pub fn message(&self) -> (text: String)
        ensures
            text@ == self@.message(),
    {
        match self {
            DeployError::RemoteUrl => "Could not get SSH URL".to_owned(),
            DeployError::Staging(detail) => detail.clone(),
            DeployError::Git(args) => String::from_str("git ").concat(
                debug_list(args).as_str(),
            ).concat(" failed"),
            DeployError::GitLaunch(args, detail) => String::from_str("git ").concat(
                debug_list(args).as_str(),
            ).concat(" could not be started: ").concat(detail.as_str()),
            DeployError::ProjectName => "couldn't get directory name".to_owned(),
            DeployError::Copy(detail) => detail.clone(),
            DeployError::Check(err) => err.message(),
            DeployError::WriteConfig(detail) => detail.clone(),
        }
    }
}

impl SshUrl {
    /// Rewrites a web address of a repository into its secure-shell form, and
    /// rejects what is not such an address.
    pub fn try_from(value: String) -> (result: Result<SshUrl, DeployError>)
        ensures
            match result {
                Ok(url) => ssh_remote(value@) == Some(url@),
                Err(err) => ssh_remote(value@) is None && err@ == DeployErrorView::RemoteUrl,
            },
    {
        let chars = chars_of(value.as_str());
        let scheme = chars_of("https://");
        let all = chars.as_slice();
        if !starts_with(all, scheme.as_slice()) {
            return Err(DeployError::RemoteUrl);
        }
        let rest = slice_subrange(all, scheme.len(), all.len());
        let slash = find_char(rest, '/', 0);
        if slash == 0 || slash >= rest.len() {
            return Err(DeployError::RemoteUrl);
        }
        let host = string_of(slice_subrange(rest, 0, slash));
        let path = string_of(cut_trailing(slice_subrange(rest, slash + 1, rest.len()), '/'));
        let url = String::from_str("git@").concat(host.as_str()).concat(":").concat(
            path.as_str(),
        ).concat(".git");
        Ok(SshUrl(url))
    }

    /// The address as text.
    pub fn as_str(&self) -> (text: &str)
        ensures
            text@ == self@,
    {
        self.0.as_str()
    }
}

/// The git commands of a deployment.
#[derive(Debug, Clone, Copy, PartialEq, Eq, Structural)]
pub enum GitStep {
    Clone,
    SparseInit,
    SparseSet,
    Checkout,
    Add,
    Commit,
    Push,
}

/// The arguments of each git command, for a deployment to `remote`. All of
/// them run inside the staging directory.
pub open spec fn git_argv(step: GitStep, remote: Seq<char>) -> Seq<Seq<char>> {
    match step {
        GitStep::Clone => seq!["clone"@, "--no-checkout"@, remote, "."@],
        GitStep::SparseInit => seq!["sparse-checkout"@, "init"@, "--cone"@],
        GitStep::SparseSet => seq!["sparse-checkout"@, "set"@, "courses"@],
        GitStep::Checkout => seq!["checkout"@],
        GitStep::Add => seq!["add"@, "."@],
        GitStep::Commit => seq!["commit"@, "-m"@, "Add new course"@],
        GitStep::Push => seq!["push"@],
    }
}

/// Builds the arguments of a git command of a deployment.
pub fn git_args(step: GitStep, remote: &SshUrl) -> (args: Vec<String>)
    ensures
        views(args@) == git_argv(step, remote@),
{
    let mut args: Vec<String> = Vec::new();
    match step {
        GitStep::Clone => {
            args.push("clone".to_owned());
            args.push("--no-checkout".to_owned());
            args.push(remote.0.clone());
            args.push(".".to_owned());
        },
        GitStep::SparseInit => {
            args.push("sparse-checkout".to_owned());
            args.push("init".to_owned());
            args.push("--cone".to_owned());
        },
        GitStep::SparseSet => {
            args.push("sparse-checkout".to_owned());
            args.push("set".to_owned());
            args.push("courses".to_owned());
        },
        GitStep::Checkout => {
            args.push("checkout".to_owned());
        },
        GitStep::Add => {
            args.push("add".to_owned());
            args.push(".".to_owned());
        },
        GitStep::Commit => {
            args.push("commit".to_owned());
            args.push("-m".to_owned());
            args.push("Add new course".to_owned());
        },
        GitStep::Push => {
            args.push("push".to_owned());
        },
    }
    assert(views(args@) =~= git_argv(step, remote@));
    args
}

/// How a git command went.
#[derive(Debug)]
pub enum GitOutcome {
    /// The command ran and reported success.
    Succeeded,
    /// The command ran and reported failure.
    Failed,
    /// The command could not be started, for this reason.
    NotLaunched(String),
}

/// How far a deployment has come. Each stage waits for the outcome of one
/// step.
#[derive(Debug)]
pub enum DeployStage {
    /// The staging directory is yet to be created.
    Staging,
    /// A git command is yet to be run.
    Running(GitStep),
    /// The name of the project directory is yet to be found.
    Naming,
    /// The project tree is yet to be copied under this name.
    Copying(String),
    /// The project is yet to be read and validated.
    Validating,
    /// The project is valid; this descriptor, stamped, is yet to be written
    /// back to the project directory.
    Writing(OsedaConfig),
    /// The deployment is over.
    Done(Result<(), DeployError>),
}

/// A stage as data.
pub enum DeployStageView {
    Staging,
    Running(GitStep),
    Naming,
    Copying(Seq<char>),
    Validating,
    Writing(ConfigView),
    Done(Result<(), DeployErrorView>),
}

impl View for DeployStage {
    type V = DeployStageView;

    open spec fn view(&self) -> DeployStageView {
        match self {
            DeployStage::Staging => DeployStageView::Staging,
            DeployStage::Running(step) => DeployStageView::Running(*step),
            DeployStage::Naming => DeployStageView::Naming,
            DeployStage::Copying(name) => DeployStageView::Copying(name@),
            DeployStage::Validating => DeployStageView::Validating,
            DeployStage::Writing(conf) => DeployStageView::Writing(conf@),
            DeployStage::Done(Ok(_)) => DeployStageView::Done(Ok(())),
            DeployStage::Done(Err(err)) => DeployStageView::Done(Err(err@)),
        }
    }
}

/// What the caller is to do next for a deployment.
#[derive(Debug, Clone, Copy, PartialEq, Eq, Structural)]
pub enum DeployAction {
    /// Create an empty staging directory.
    CreateStaging,
    /// Run this git command in the staging directory.
    Git(GitStep),
    /// Find the base name of the project directory.
    ResolveProjectName,
    /// Copy the project tree into the staging directory, under the courses
    /// directory and the project's name. The project itself is left as it is.
    CopyProject,
    /// Read the project and its surroundings into a snapshot.
    ReadProject,
    /// Write the descriptor that the deployment holds to the project
    /// directory.
    WriteConfig,
    /// Nothing more: take the result.
    Report,
}

/// What the caller observed when it did what was asked. A step that failed
/// says why.
#[derive(Debug)]
pub enum DeployEvent {
    StagingCreated(Result<(), String>),
    GitFinished(GitOutcome),
    /// The base name of the project directory, if it has one.
    NameResolved(Option<String>),
    ProjectCopied(Result<(), String>),
    ProjectRead(ProjectSnapshot),
    ConfigWritten(Result<(), String>),
}

/// The stage that follows a git command that succeeded.
pub open spec fn after_git(step: GitStep) -> DeployStageView {
    match step {
        GitStep::Clone => DeployStageView::Running(GitStep::SparseInit),
        GitStep::SparseInit => DeployStageView::Running(GitStep::SparseSet),
        GitStep::SparseSet => DeployStageView::Running(GitStep::Checkout),
        GitStep::Checkout => DeployStageView::Naming,
        GitStep::Add => DeployStageView::Running(GitStep::Commit),
        GitStep::Commit => DeployStageView::Running(GitStep::Push),
        GitStep::Push => DeployStageView::Done(Ok(())),
    }
}

/// The stage that follows `stage` once `event` was observed, in a deployment
/// to `remote`, when the clock reads `now`. A step that fails ends the
/// deployment with its error. An event that does not answer what the stage
/// is waiting for changes nothing. The clock matters only when a valid
/// project is read: its descriptor is stamped with that time.
pub open spec fn next_stage(
    remote: Seq<char>,
    stage: DeployStageView,
    event: DeployEvent,
    now: Timestamp,
) -> DeployStageView {
    match (stage, event) {
        (DeployStageView::Staging, DeployEvent::StagingCreated(outcome)) => match outcome {
            Ok(_) => DeployStageView::Running(GitStep::Clone),
            Err(detail) => DeployStageView::Done(Err(DeployErrorView::Staging(detail@))),
        },
        (DeployStageView::Running(step), DeployEvent::GitFinished(outcome)) => match outcome {
            GitOutcome::Succeeded => after_git(step),
            GitOutcome::Failed => DeployStageView::Done(
                Err(DeployErrorView::Git(git_argv(step, remote))),
            ),
            GitOutcome::NotLaunched(detail) => DeployStageView::Done(
                Err(DeployErrorView::GitLaunch(git_argv(step, remote), detail@)),
            ),
        },
        (DeployStageView::Naming, DeployEvent::NameResolved(name)) => match name {
            Some(name) => DeployStageView::Copying(name@),
            None => DeployStageView::Done(Err(DeployErrorView::ProjectName)),
        },
        (DeployStageView::Copying(_), DeployEvent::ProjectCopied(outcome)) => match outcome {
            Ok(_) => DeployStageView::Validating,
            Err(detail) => DeployStageView::Done(Err(DeployErrorView::Copy(detail@))),
        },
        (DeployStageView::Validating, DeployEvent::ProjectRead(snapshot)) => match (
            validation_error(snapshot),
            snapshot.descriptor,
        ) {
            (Some(err), _) => DeployStageView::Done(Err(DeployErrorView::Check(err))),
            (None, Descriptor::Parsed(conf)) => DeployStageView::Writing(stamped(conf@, now)),
            (None, _) => arbitrary(),
        },
        (DeployStageView::Writing(_), DeployEvent::ConfigWritten(outcome)) => match outcome {
            Ok(_) => DeployStageView::Running(GitStep::Add),
            Err(detail) => DeployStageView::Done(Err(DeployErrorView::WriteConfig(detail@))),
        },
        (stage, _) => stage,
    }
}

/// Whether the step depends on the time: a project is read while the
/// deployment waits for one to validate.
pub open spec fn needs_clock(stage: DeployStageView, event: DeployEvent) -> bool {
    stage is Validating && event is ProjectRead
}

/// The time plays a part only where a project is read for validation: every
/// other step goes the same way whatever the clock reads.
pub proof fn lemma_clock_matters_at_validation_only(
    remote: Seq<char>,
    stage: DeployStageView,
    event: DeployEvent,
    first: Timestamp,
    second: Timestamp,
)
    requires
        !needs_clock(stage, event),
    ensures
        next_stage(remote, stage, event, first) == next_stage(remote, stage, event, second),
{
}

/// One step of a deployment as it happened: what was observed, and what the
/// clock read then.
pub struct DeployStep {
    pub event: DeployEvent,
    pub now: Timestamp,
}

/// The stage reached from `stage` after a run of steps, in order.
pub open spec fn stage_after(remote: Seq<char>, stage: DeployStageView, steps: Seq<DeployStep>)
    -> DeployStageView
    decreases steps.len(),
{
    if steps.len() == 0 {
        stage
    } else {
        stage_after(
            remote,
            next_stage(remote, stage, steps[0].event, steps[0].now),
            steps.drop_first(),
        )
    }
}

/// What the caller is to do next at a stage.
pub open spec fn action_at(stage: DeployStageView) -> DeployAction {
    match stage {
        DeployStageView::Staging => DeployAction::CreateStaging,
        DeployStageView::Running(step) => DeployAction::Git(step),
        DeployStageView::Naming => DeployAction::ResolveProjectName,
        DeployStageView::Copying(_) => DeployAction::CopyProject,
        DeployStageView::Validating => DeployAction::ReadProject,
        DeployStageView::Writing(_) => DeployAction::WriteConfig,
        DeployStageView::Done(_) => DeployAction::Report,
    }
}

/// A deployment in progress: where it goes and how far it has come.
#[derive(Debug)]
pub struct Publisher {
    pub remote: SshUrl,
    pub stage: DeployStage,
}

impl Publisher {
    /// A deployment to `remote` that has not begun.
    pub fn new(remote: SshUrl) -> (publisher: Publisher)
        ensures
            publisher.remote == remote,
            publisher.stage@ == DeployStageView::Staging,
    {
        Publisher { remote, stage: DeployStage::Staging }
    }

    /// A deployment as the options ask for it. The remote is brought into its
    /// secure-shell form first; if it has none, the deployment does not
    /// begin.
    pub fn from_options(opts: DeployOptions) -> (result: Result<Publisher, DeployError>)
        ensures
            match result {
                Ok(publisher) => ssh_remote(opts.fork_url_spec()@) == Some(publisher.remote@)
                    && publisher.stage@ == DeployStageView::Staging,
                Err(err) => ssh_remote(opts.fork_url_spec()@) is None && err@
                    == DeployErrorView::RemoteUrl,
            },
    {
        match SshUrl::try_from(opts.into_fork_url()) {
            Ok(remote) => Ok(Publisher::new(remote)),
            Err(err) => Err(err),
        }
    }

    /// Tells the caller what to do next.
    pub fn pending(&self) -> (action: DeployAction)
        ensures
            action == action_at(self.stage@),
    {
        match &self.stage {
            DeployStage::Staging => DeployAction::CreateStaging,
            DeployStage::Running(step) => DeployAction::Git(*step),
            DeployStage::Naming => DeployAction::ResolveProjectName,
            DeployStage::Copying(_) => DeployAction::CopyProject,
            DeployStage::Validating => DeployAction::ReadProject,
            DeployStage::Writing(_) => DeployAction::WriteConfig,
            DeployStage::Done(_) => DeployAction::Report,
        }
    }

    /// The name under which the project tree is to be copied, while that is
    /// what the deployment waits for.
    pub fn project_name(&self) -> (name: Option<&String>)
        ensures
            match name {
                Some(name) => self.stage@ == DeployStageView::Copying(name@),
                None => !(self.stage is Copying),
            },
    {
        match &self.stage {
            DeployStage::Copying(name) => Some(name),
            _ => None,
        }
    }

    /// The descriptor that is to be written back, while that is what the
    /// deployment waits for.
    pub fn config_to_write(&self) -> (conf: Option<&OsedaConfig>)
        ensures
            match conf {
                Some(conf) => self.stage@ == DeployStageView::Writing(conf@),
                None => !(self.stage is Writing),
            },
    {
        match &self.stage {
            DeployStage::Writing(conf) => Some(conf),
            _ => None,
        }
    }

    /// Takes in what the caller observed while the clock read `now`, and
    /// moves on.
    pub fn advance_at(self, event: DeployEvent, now: Timestamp) -> (next: Publisher)
        ensures
            next.remote == self.remote,
            next.stage@ == next_stage(self.remote@, self.stage@, event, now),
    {
        let Publisher { remote, stage } = self;
        let stage = match (stage, event) {
            (DeployStage::Staging, DeployEvent::StagingCreated(outcome)) => match outcome {
                Ok(_) => DeployStage::Running(GitStep::Clone),
                Err(detail) => DeployStage::Done(Err(DeployError::Staging(detail))),
            },
            (DeployStage::Running(step), DeployEvent::GitFinished(outcome)) => match outcome {
                GitOutcome::Succeeded => match step {
                    GitStep::Clone => DeployStage::Running(GitStep::SparseInit),
                    GitStep::SparseInit => DeployStage::Running(GitStep::SparseSet),
                    GitStep::SparseSet => DeployStage::Running(GitStep::Checkout),
                    GitStep::Checkout => DeployStage::Naming,
                    GitStep::Add => DeployStage::Running(GitStep::Commit),
                    GitStep::Commit => DeployStage::Running(GitStep::Push),
                    GitStep::Push => DeployStage::Done(Ok(())),
                },
                GitOutcome::Failed => DeployStage::Done(
                    Err(DeployError::Git(git_args(step, &remote))),
                ),
                GitOutcome::NotLaunched(detail) => DeployStage::Done(
                    Err(DeployError::GitLaunch(git_args(step, &remote), detail)),
                ),
            },
            (DeployStage::Naming, DeployEvent::NameResolved(name)) => match name {
                Some(name) => DeployStage::Copying(name),
                None => DeployStage::Done(Err(DeployError::ProjectName)),
            },
            (DeployStage::Copying(_), DeployEvent::ProjectCopied(outcome)) => match outcome {
                Ok(_) => DeployStage::Validating,
                Err(detail) => DeployStage::Done(Err(DeployError::Copy(detail))),
            },
            (DeployStage::Validating, DeployEvent::ProjectRead(snapshot)) => {
                match read_and_validate_config(snapshot) {
                    Ok(conf) => DeployStage::Writing(stamp(conf, now)),
                    Err(err) => DeployStage::Done(Err(DeployError::Check(err))),
                }
            },
            (DeployStage::Writing(_), DeployEvent::ConfigWritten(outcome)) => match outcome {
                Ok(_) => DeployStage::Running(GitStep::Add),
                Err(detail) => DeployStage::Done(Err(DeployError::WriteConfig(detail))),
            },
            (stage, _) => stage,
        };
        Publisher { remote, stage }
    }

    /// Takes in what the caller observed, and moves on. The clock is read
    /// only when a project is read for validation, which is the one step
    /// that depends on the time; whatever the clock says then, the deployment
    /// moves as `next_stage` tells for that time. Every other step moves as
    /// `next_stage` tells for any time.
    pub fn advance(self, event: DeployEvent) -> (next: Publisher)
        ensures
            next.remote == self.remote,
            exists|now: Timestamp|
                next.stage@ == #[trigger] next_stage(self.remote@, self.stage@, event, now),
            !needs_clock(self.stage@, event) ==> forall|now: Timestamp|
                next.stage@ == #[trigger] next_stage(self.remote@, self.stage@, event, now),
    {
        let reads_project = match (&self.stage, &event) {
            (DeployStage::Validating, DeployEvent::ProjectRead(_)) => true,
            _ => false,
        };
        let now = if reads_project {
            get_time()
        } else {
            Timestamp { secs: 0, nanos: 0 }
        };
        let ghost before = self.stage@;
        let next = self.advance_at(event, now);
        assert(next.stage@ == next_stage(next.remote@, before, event, now));
        proof {
            if !needs_clock(before, event) {
                assert forall|other: Timestamp|
                    next.stage@ == #[trigger] next_stage(next.remote@, before, event, other) by {
                    lemma_clock_matters_at_validation_only(
                        next.remote@,
                        before,
                        event,
                        now,
                        other,
                    );
                }
            }
        }
        next
    }

    /// The result, once the deployment is over.
    pub fn result(self) -> (result: Option<Result<(), DeployError>>)
        ensures
            match result {
                Some(outcome) => self.stage == DeployStage::Done(outcome),
                None => !(self.stage is Done),
            },
    {
        match self.stage {
            DeployStage::Done(outcome) => Some(outcome),
            _ => None,
        }
    }
}

/// Whether a stage lies behind a successful validation: the descriptor is
/// being written back, the staged tree is being added, committed or pushed,
/// or the deployment ended well.
pub open spec fn past_validation(stage: DeployStageView) -> bool {
    match stage {
        DeployStageView::Writing(_) => true,
        DeployStageView::Running(step) => step == GitStep::Add || step == GitStep::Commit || step
            == GitStep::Push,
        DeployStageView::Done(outcome) => outcome is Ok,
        _ => false,
    }
}

/// Whether a project that passes validation was read in one of the steps.
pub open spec fn saw_valid_project(steps: Seq<DeployStep>) -> bool {
    exists|i: int|
        0 <= i < steps.len() && (#[trigger] steps[i].event matches DeployEvent::ProjectRead(
            snapshot,
        ) && validation_error(snapshot) is None)
}

/// The place of a stage in the order of a deployment.
pub open spec fn rank(stage: DeployStageView) -> nat {
    match stage {
        DeployStageView::Staging => 0,
        DeployStageView::Running(GitStep::Clone) => 1,
        DeployStageView::Running(GitStep::SparseInit) => 2,
        DeployStageView::Running(GitStep::SparseSet) => 3,
        DeployStageView::Running(GitStep::Checkout) => 4,
        DeployStageView::Naming => 5,
        DeployStageView::Copying(_) => 6,
        DeployStageView::Validating => 7,
        DeployStageView::Writing(_) => 8,
        DeployStageView::Running(GitStep::Add) => 9,
        DeployStageView::Running(GitStep::Commit) => 10,
        DeployStageView::Running(GitStep::Push) => 11,
        DeployStageView::Done(_) => 12,
    }
}

/// A deployment that is over stays as it is, whatever is observed
/// afterwards.
pub proof fn lemma_done_is_final(
    remote: Seq<char>,
    outcome: Result<(), DeployErrorView>,
    steps: Seq<DeployStep>,
)
    ensures
        stage_after(remote, DeployStageView::Done(outcome), steps) == DeployStageView::Done(
            outcome,
        ),
    decreases steps.len(),
{
    if steps.len() > 0 {
        lemma_done_is_final(remote, outcome, steps.drop_first());
    }
}

/// A deployment never goes back: whatever is observed, the stage stays or
/// moves forward, so no step is taken twice.
pub proof fn lemma_deployment_never_goes_back(
    remote: Seq<char>,
    stage: DeployStageView,
    steps: Seq<DeployStep>,
)
    ensures
        rank(stage) <= rank(stage_after(remote, stage, steps)),
    decreases steps.len(),
{
    if steps.len() > 0 {
        let next = next_stage(remote, stage, steps[0].event, steps[0].now);
        assert(rank(stage) <= rank(next));
        lemma_deployment_never_goes_back(remote, next, steps.drop_first());
    }
}

/// A git command that succeeds leads to the step after it. One that fails or
/// cannot be started ends the deployment with an error that holds the
/// arguments of that command.
pub proof fn lemma_git_outcome_decides(
    remote: Seq<char>,
    step: GitStep,
    outcome: GitOutcome,
    now: Timestamp,
)
    ensures
        next_stage(remote, DeployStageView::Running(step), DeployEvent::GitFinished(outcome), now)
            == (match outcome {
            GitOutcome::Succeeded => after_git(step),
            GitOutcome::Failed => DeployStageView::Done(
                Err(DeployErrorView::Git(git_argv(step, remote))),
            ),
            GitOutcome::NotLaunched(detail) => DeployStageView::Done(
                Err(DeployErrorView::GitLaunch(git_argv(step, remote), detail@)),
            ),
        }),
{
}

/// From any stage up to validation, a run of steps gets behind validation
/// only if a valid project is read on the way.
proof fn lemma_validation_gates(remote: Seq<char>, stage: DeployStageView, steps: Seq<DeployStep>)
    requires
        !past_validation(stage),
        past_validation(stage_after(remote, stage, steps)),
    ensures
        saw_valid_project(steps),
    decreases steps.len(),
{
    if steps.len() > 0 {
        let next = next_stage(remote, stage, steps[0].event, steps[0].now);
        let rest = steps.drop_first();
        if past_validation(next) {
            assert(steps[0].event matches DeployEvent::ProjectRead(snapshot) && validation_error(
                snapshot,
            ) is None);
        } else {
            lemma_validation_gates(remote, next, rest);
            let i = choose|i: int|
                0 <= i < rest.len() && (#[trigger] rest[i].event matches DeployEvent::ProjectRead(
                    snapshot,
                ) && validation_error(snapshot) is None);
            assert(steps[i + 1] == rest[i]);
        }
    }
}

/// A deployment writes the descriptor back, adds, commits or pushes, or ends
/// well, only if the project was read and passed validation.
pub proof fn lemma_push_needs_valid_project(remote: Seq<char>, steps: Seq<DeployStep>)
    requires
        past_validation(stage_after(remote, DeployStageView::Staging, steps)),
    ensures
        saw_valid_project(steps),
{
    lemma_validation_gates(remote, DeployStageView::Staging, steps);
}

/// A project that fails validation ends the deployment with the error of the
/// validation, and it stays ended: nothing is written, added, committed or
/// pushed afterwards, whatever is observed.
pub proof fn lemma_invalid_project_is_never_pushed(
    remote: Seq<char>,
    snapshot: ProjectSnapshot,
    now: Timestamp,
    later: Seq<DeployStep>,
)
    requires
        validation_error(snapshot) is Some,
    ensures
        stage_after(
            remote,
            DeployStageView::Validating,
            seq![DeployStep { event: DeployEvent::ProjectRead(snapshot), now }] + later,
        ) == DeployStageView::Done(
            Err(DeployErrorView::Check(validation_error(snapshot)->0)),
        ),
        action_at(
            stage_after(
                remote,
                DeployStageView::Validating,
                seq![DeployStep { event: DeployEvent::ProjectRead(snapshot), now }] + later,
            ),
        ) == DeployAction::Report,
{
    let steps = seq![DeployStep { event: DeployEvent::ProjectRead(snapshot), now }] + later;
    assert(steps.drop_first() =~= later);
    lemma_done_is_final(remote, Err(DeployErrorView::Check(validation_error(snapshot)->0)), later);
}

/// A valid project is stamped with the time at which it was read: the
/// descriptor that is written back differs from the one read in
/// `last_updated` alone, which does not move backwards.
pub proof fn lemma_valid_project_is_stamped(remote: Seq<char>, snapshot: ProjectSnapshot, now: Timestamp)
    requires
        validation_error(snapshot) is None,
    ensures
        snapshot.descriptor matches Descriptor::Parsed(conf) && next_stage(
            remote,
            DeployStageView::Validating,
            DeployEvent::ProjectRead(snapshot),
            now,
        ) == DeployStageView::Writing(stamped(conf@, now)) && !stamped(
            conf@,
            now,
        ).last_updated.before(conf.last_updated),
{
}

} // verus!
