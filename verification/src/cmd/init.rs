//! Setting up a new project: the npm commands that prepare its directory, the
//! files that a template puts into it, and the order in which all of it is
//! done. The first step that fails ends the setup.

use crate::template::Template;
use crate::text::{join, joined, views};
use vstd::prelude::*;

verus! {

/// Options of the init command.
#[derive(Debug)]
pub struct InitOptions {
    presentation_only: bool,
}

impl InitOptions {
    /// Options with the given flag.
    pub fn new(presentation_only: bool) -> (opts: InitOptions)
        ensures
            opts.presentation_only_spec() == presentation_only,
    {
        InitOptions { presentation_only }
    }

    /// Whether only the presentation is wanted. Nothing depends on it yet.
    pub closed spec fn presentation_only_spec(&self) -> bool {
        self.presentation_only
    }

    /// Whether only the presentation is wanted. Nothing depends on it yet.
    #[verifier::when_used_as_spec(presentation_only_spec)]
    pub fn presentation_only(&self) -> (flag: bool)
        ensures
            flag == self.presentation_only_spec(),
    {
        self.presentation_only
    }
}

/// The arguments of the npm call that initializes the project directory
/// named `title`.
pub open spec fn npm_init_argv(title: Seq<char>) -> Seq<Seq<char>> {
    seq!["init"@, "-y"@, "--prefix"@, title]
}

/// The arguments of the npm calls that install what a project needs, in the
/// order in which they run.
pub open spec fn npm_install_argvs() -> Seq<Seq<Seq<char>>> {
    seq![
        seq!["install"@, "--save-dev"@, "vite"@, "http-server"@],
        seq!["install"@, "reveal.js"@, "serve"@, "vite-plugin-singlefile"@],
        seq!["install"@, "vite@5"@],
        seq!["install"@, "patch-package"@],
    ]
}

/// Builds the arguments of the npm call that initializes the project
/// directory named `title`.
pub fn npm_init_args(title: &str) -> (args: Vec<String>)
    ensures
        views(args@) == npm_init_argv(title@),
{
    let mut args: Vec<String> = Vec::new();
    args.push("init".to_owned());
    args.push("-y".to_owned());
    args.push("--prefix".to_owned());
    args.push(title.to_owned());
    assert(views(args@) =~= npm_init_argv(title@));
    args
}

/// The character contents of a list of argument lists.
pub open spec fn command_views(commands: Seq<Vec<String>>) -> Seq<Seq<Seq<char>>> {
    commands.map_values(|args: Vec<String>| views(args@))
}

/// Builds the arguments of the npm calls that install what a project needs,
/// in the order in which they run.
pub fn npm_install_commands() -> (commands: Vec<Vec<String>>)
    ensures
        command_views(commands@) == npm_install_argvs(),
{
    let mut commands: Vec<Vec<String>> = Vec::new();
    commands.push(InstallStep::Tooling.args());
    commands.push(InstallStep::Slides.args());
    commands.push(InstallStep::Vite.args());
    commands.push(InstallStep::PatchPackage.args());
    assert(command_views(commands@) =~= npm_install_argvs());
    commands
}

/// What to report when the npm call that initializes the directory fails.
pub const NPM_INIT_FAILED: &'static str = "npm init failed";

/// What to report when an npm call with these arguments fails: the command
/// as it would be typed, and that it failed.
pub open spec fn npm_failure(args: Seq<Seq<char>>) -> Seq<char> {
    "npm "@ + joined(args, ' ') + " failed"@
}

/// Words the failure of an npm call with these arguments. The first call
/// that fails ends the setup with this message.
pub fn npm_failure_message(args: &Vec<String>) -> (text: String)
    ensures
        text@ == npm_failure(views(args@)),
{
    String::from_str("npm ").concat(join(args, ' ').as_str()).concat(" failed")
}

/// The files that a template puts into a new project.
#[derive(Debug, Clone, Copy, PartialEq, Eq, Structural)]
pub enum Asset {
    ViteConfig,
    IndexHtml,
    MainJs,
    Slides,
    CustomCss,
    Ferris,
}

impl Asset {
    /// Every file of a template, in the order in which they are written.
    pub open spec fn all() -> Seq<Asset> {
        seq![
            Asset::ViteConfig,
            Asset::IndexHtml,
            Asset::MainJs,
            Asset::Slides,
            Asset::CustomCss,
            Asset::Ferris,
        ]
    }

    /// Where a file goes, relative to the project directory. Only the slides
    /// depend on the template.
    pub open spec fn location(self, template: Template) -> Seq<char> {
        match self {
            Asset::ViteConfig => "vite.config.js"@,
            Asset::IndexHtml => "index.html"@,
            Asset::MainJs => "src/main.js"@,
            Asset::Slides => match template {
                Template::Markdown => "slides/slides.md"@,
                Template::HTML => "slides/slides.html"@,
            },
            Asset::CustomCss => "css/custom.css"@,
            Asset::Ferris => "public/ferris.png"@,
        }
    }

    /// Every file of a template, in the order in which they are written.
    pub fn to_vec() -> (all: Vec<Asset>)
        ensures
            all@ == Asset::all(),
    {
        let all = vec![
            Asset::ViteConfig,
            Asset::IndexHtml,
            Asset::MainJs,
            Asset::Slides,
            Asset::CustomCss,
            Asset::Ferris,
        ];
        assert(all@ =~= Asset::all());
        all
    }

    /// Tells where a file goes, relative to the project directory.
    pub fn path(&self, template: Template) -> (path: String)
        ensures
            path@ == self.location(template),
    {
        match self {
            Asset::ViteConfig => "vite.config.js".to_owned(),
            Asset::IndexHtml => "index.html".to_owned(),
            Asset::MainJs => "src/main.js".to_owned(),
            Asset::Slides => match template {
                Template::Markdown => "slides/slides.md".to_owned(),
                Template::HTML => "slides/slides.html".to_owned(),
            },
            Asset::CustomCss => "css/custom.css".to_owned(),
            Asset::Ferris => "public/ferris.png".to_owned(),
        }
    }
}

/// The npm calls that install what a project needs.
#[derive(Debug, Clone, Copy, PartialEq, Eq, Structural)]
pub enum InstallStep {
    /// The build tool and a development server.
    Tooling,
    /// The slide framework, the file server and the single-file plugin.
    Slides,
    /// The pinned major version of the build tool.
    Vite,
    /// The patching tool.
    PatchPackage,
}

impl InstallStep {
    /// Every install, in the order in which they run.
    pub open spec fn all() -> Seq<InstallStep> {
        seq![InstallStep::Tooling, InstallStep::Slides, InstallStep::Vite, InstallStep::PatchPackage]
    }

    /// The arguments of the npm call.
    pub open spec fn argv(self) -> Seq<Seq<char>> {
        match self {
            InstallStep::Tooling => seq!["install"@, "--save-dev"@, "vite"@, "http-server"@],
            InstallStep::Slides => seq![
                "install"@,
                "reveal.js"@,
                "serve"@,
                "vite-plugin-singlefile"@,
            ],
            InstallStep::Vite => seq!["install"@, "vite@5"@],
            InstallStep::PatchPackage => seq!["install"@, "patch-package"@],
        }
    }

    /// The install that runs next, if this is not the last.
    pub open spec fn following(self) -> Option<InstallStep> {
        match self {
            InstallStep::Tooling => Some(InstallStep::Slides),
            InstallStep::Slides => Some(InstallStep::Vite),
            InstallStep::Vite => Some(InstallStep::PatchPackage),
            InstallStep::PatchPackage => None,
        }
    }

    /// The place of the install in the order.
    pub open spec fn position(self) -> nat {
        match self {
            InstallStep::Tooling => 0,
            InstallStep::Slides => 1,
            InstallStep::Vite => 2,
            InstallStep::PatchPackage => 3,
        }
    }

    /// Builds the arguments of the npm call.
    pub fn args(&self) -> (args: Vec<String>)
        ensures
            views(args@) == self.argv(),
    {
        let mut args: Vec<String> = Vec::new();
        args.push("install".to_owned());
        match self {
            InstallStep::Tooling => {
                args.push("--save-dev".to_owned());
                args.push("vite".to_owned());
                args.push("http-server".to_owned());
            },
            InstallStep::Slides => {
                args.push("reveal.js".to_owned());
                args.push("serve".to_owned());
                args.push("vite-plugin-singlefile".to_owned());
            },
            InstallStep::Vite => {
                args.push("vite@5".to_owned());
            },
            InstallStep::PatchPackage => {
                args.push("patch-package".to_owned());
            },
        }
        assert(views(args@) =~= self.argv());
        args
    }
}

/// The installs, taken one after the other, are the list of npm install
/// calls, in its order.
pub proof fn lemma_installs_in_order()
    ensures
        InstallStep::all().map_values(|step: InstallStep| step.argv()) == npm_install_argvs(),
        forall|i: int|
            0 <= i < InstallStep::all().len() ==> (#[trigger] InstallStep::all()[i]).position()
                == i,
        forall|i: int|
            0 <= i < InstallStep::all().len() - 1 ==> (#[trigger] InstallStep::all()[i]).following()
                == Some(InstallStep::all()[i + 1]),
        InstallStep::all().last().following() is None,
{
    assert(InstallStep::all().map_values(|step: InstallStep| step.argv())
        =~= npm_install_argvs());
}

impl Asset {
    /// The file that is written next, if this is not the last.
    pub open spec fn following(self) -> Option<Asset> {
        match self {
            Asset::ViteConfig => Some(Asset::IndexHtml),
            Asset::IndexHtml => Some(Asset::MainJs),
            Asset::MainJs => Some(Asset::Slides),
            Asset::Slides => Some(Asset::CustomCss),
            Asset::CustomCss => Some(Asset::Ferris),
            Asset::Ferris => None,
        }
    }

    /// The place of the file in the order of writing.
    pub open spec fn position(self) -> nat {
        match self {
            Asset::ViteConfig => 0,
            Asset::IndexHtml => 1,
            Asset::MainJs => 2,
            Asset::Slides => 3,
            Asset::CustomCss => 4,
            Asset::Ferris => 5,
        }
    }
}

/// The files, taken one after the other, are the list of files of a
/// template, in its order.
pub proof fn lemma_assets_in_order()
    ensures
        forall|i: int| 0 <= i < Asset::all().len() ==> (#[trigger] Asset::all()[i]).position() == i,
        forall|i: int|
            0 <= i < Asset::all().len() - 1 ==> (#[trigger] Asset::all()[i]).following() == Some(
                Asset::all()[i + 1],
            ),
        Asset::all().last().following() is None,
{
}

/// How an npm call went.
#[derive(Debug)]
pub enum NpmOutcome {
    /// The call ran and reported success.
    Succeeded,
    /// The call ran and reported failure.
    Failed,
    /// The call could not be started, for this reason.
    NotLaunched(String),
}

/// Why a setup failed.
#[derive(Debug)]
pub enum InitError {
    /// The project directory could not be created.
    Directory(String),
    /// The npm call that initializes the directory reported failure.
    NpmInit,
    /// This install reported failure.
    NpmInstall(InstallStep),
    /// An npm call could not be started.
    NpmLaunch(String),
    /// The descriptor could not be written.
    WriteConfig(String),
    /// This file of the template could not be written.
    WriteFile(Asset, String),
}

/// A setup error as data.
pub enum InitErrorView {
    Directory(Seq<char>),
    NpmInit,
    NpmInstall(InstallStep),
    NpmLaunch(Seq<char>),
    WriteConfig(Seq<char>),
    WriteFile(Asset, Seq<char>),
}

impl View for InitError {
    type V = InitErrorView;

    open spec fn view(&self) -> InitErrorView {
        match self {
            InitError::Directory(detail) => InitErrorView::Directory(detail@),
            InitError::NpmInit => InitErrorView::NpmInit,
            InitError::NpmInstall(step) => InitErrorView::NpmInstall(*step),
            InitError::NpmLaunch(detail) => InitErrorView::NpmLaunch(detail@),
            InitError::WriteConfig(detail) => InitErrorView::WriteConfig(detail@),
            InitError::WriteFile(asset, detail) => InitErrorView::WriteFile(*asset, detail@),
        }
    }
}

impl InitErrorView {
    /// The message of the error.
    pub open spec fn message(self) -> Seq<char> {
        match self {
            InitErrorView::Directory(detail) => detail,
            InitErrorView::NpmInit => NPM_INIT_FAILED@,
            InitErrorView::NpmInstall(step) => npm_failure(step.argv()),
            InitErrorView::NpmLaunch(detail) => detail,
            InitErrorView::WriteConfig(detail) => detail,
            InitErrorView::WriteFile(_, detail) => detail,
        }
    }
}

impl InitError {
    /// The message of the error. A failed install is named as it would be
    /// typed.
    pub fn message(&self) -> (text: String)
        ensures
            text@ == self@.message(),
    {
        match self {
            InitError::Directory(detail) => detail.clone(),
            InitError::NpmInit => NPM_INIT_FAILED.to_owned(),
            InitError::NpmInstall(step) => npm_failure_message(&step.args()),
            InitError::NpmLaunch(detail) => detail.clone(),
            InitError::WriteConfig(detail) => detail.clone(),
            InitError::WriteFile(_, detail) => detail.clone(),
        }
    }
}

/// How far a setup has come. Each stage waits for the outcome of one step.
#[derive(Debug)]
pub enum InitStage {
    /// The project directory is yet to be created.
    CreatingDirectory,
    /// The directory is yet to be initialized by npm.
    Initializing,
    /// This install is yet to be run.
    Installing(InstallStep),
    /// Everything is installed; the descriptor is yet to be written.
    WritingConfig,
    /// This file of the template is yet to be written.
    WritingFile(Asset),
    /// The setup is over.
    Done(Result<(), InitError>),
}

/// A stage as data.
pub enum InitStageView {
    CreatingDirectory,
    Initializing,
    Installing(InstallStep),
    WritingConfig,
    WritingFile(Asset),
    Done(Result<(), InitErrorView>),
}

impl View for InitStage {
    type V = InitStageView;

    open spec fn view(&self) -> InitStageView {
        match self {
            InitStage::CreatingDirectory => InitStageView::CreatingDirectory,
            InitStage::Initializing => InitStageView::Initializing,
            InitStage::Installing(step) => InitStageView::Installing(*step),
            InitStage::WritingConfig => InitStageView::WritingConfig,
            InitStage::WritingFile(asset) => InitStageView::WritingFile(*asset),
            InitStage::Done(Ok(_)) => InitStageView::Done(Ok(())),
            InitStage::Done(Err(err)) => InitStageView::Done(Err(err@)),
        }
    }
}

/// What the caller is to do next for a setup.
#[derive(Debug, Clone, Copy, PartialEq, Eq, Structural)]
pub enum InitAction {
    /// Create the project directory.
    CreateDirectory,
    /// Let npm initialize the project directory.
    NpmInit,
    /// Run this install in the project directory.
    NpmInstall(InstallStep),
    /// Write the descriptor into the project directory.
    WriteConfig,
    /// Write this file of the template into the project directory.
    WriteFile(Asset),
    /// Nothing more: take the result.
    Report,
}

/// What the caller observed when it did what was asked. A step that failed
/// says why.
#[derive(Debug)]
pub enum InitEvent {
    DirectoryCreated(Result<(), String>),
    NpmFinished(NpmOutcome),
    ConfigWritten(Result<(), String>),
    FileWritten(Result<(), String>),
}

/// The stage that follows `stage` once `event` was observed. A step that
/// fails ends the setup with its error. An event that does not answer what
/// the stage is waiting for changes nothing.
pub open spec fn next_stage(stage: InitStageView, event: InitEvent) -> InitStageView {
    match (stage, event) {
        (InitStageView::CreatingDirectory, InitEvent::DirectoryCreated(outcome)) => match outcome {
            Ok(_) => InitStageView::Initializing,
            Err(detail) => InitStageView::Done(Err(InitErrorView::Directory(detail@))),
        },
        (InitStageView::Initializing, InitEvent::NpmFinished(outcome)) => match outcome {
            NpmOutcome::Succeeded => InitStageView::Installing(InstallStep::Tooling),
            NpmOutcome::Failed => InitStageView::Done(Err(InitErrorView::NpmInit)),
            NpmOutcome::NotLaunched(detail) => InitStageView::Done(
                Err(InitErrorView::NpmLaunch(detail@)),
            ),
        },
        (InitStageView::Installing(step), InitEvent::NpmFinished(outcome)) => match outcome {
            NpmOutcome::Succeeded => match step.following() {
                Some(next) => InitStageView::Installing(next),
                None => InitStageView::WritingConfig,
            },
            NpmOutcome::Failed => InitStageView::Done(Err(InitErrorView::NpmInstall(step))),
            NpmOutcome::NotLaunched(detail) => InitStageView::Done(
                Err(InitErrorView::NpmLaunch(detail@)),
            ),
        },
        (InitStageView::WritingConfig, InitEvent::ConfigWritten(outcome)) => match outcome {
            Ok(_) => InitStageView::WritingFile(Asset::ViteConfig),
            Err(detail) => InitStageView::Done(Err(InitErrorView::WriteConfig(detail@))),
        },
        (InitStageView::WritingFile(asset), InitEvent::FileWritten(outcome)) => match outcome {
            Ok(_) => match asset.following() {
                Some(next) => InitStageView::WritingFile(next),
                None => InitStageView::Done(Ok(())),
            },
            Err(detail) => InitStageView::Done(Err(InitErrorView::WriteFile(asset, detail@))),
        },
        (stage, _) => stage,
    }
}

/// The stage reached from `stage` after a run of events, in order.
pub open spec fn stage_after(stage: InitStageView, events: Seq<InitEvent>) -> InitStageView
    decreases events.len(),
{
    if events.len() == 0 {
        stage
    } else {
        stage_after(next_stage(stage, events[0]), events.drop_first())
    }
}

/// The place of a stage in the order of a setup.
pub open spec fn rank(stage: InitStageView) -> nat {
    match stage {
        InitStageView::CreatingDirectory => 0,
        InitStageView::Initializing => 1,
        InitStageView::Installing(step) => 2 + step.position(),
        InitStageView::WritingConfig => 6,
        InitStageView::WritingFile(asset) => 7 + asset.position(),
        InitStageView::Done(_) => 13,
    }
}

impl InitStage {
    /// What the caller is to do next.
    pub open spec fn pending_action(&self) -> InitAction {
        match self {
            InitStage::CreatingDirectory => InitAction::CreateDirectory,
            InitStage::Initializing => InitAction::NpmInit,
            InitStage::Installing(step) => InitAction::NpmInstall(*step),
            InitStage::WritingConfig => InitAction::WriteConfig,
            InitStage::WritingFile(asset) => InitAction::WriteFile(*asset),
            InitStage::Done(_) => InitAction::Report,
        }
    }

    /// A setup that has not begun.
    pub fn new() -> (stage: InitStage)
        ensures
            stage@ == InitStageView::CreatingDirectory,
    {
        InitStage::CreatingDirectory
    }

    /// Tells the caller what to do next.
    pub fn pending(&self) -> (action: InitAction)
        ensures
            action == self.pending_action(),
    {
        match self {
            InitStage::CreatingDirectory => InitAction::CreateDirectory,
            InitStage::Initializing => InitAction::NpmInit,
            InitStage::Installing(step) => InitAction::NpmInstall(*step),
            InitStage::WritingConfig => InitAction::WriteConfig,
            InitStage::WritingFile(asset) => InitAction::WriteFile(*asset),
            InitStage::Done(_) => InitAction::Report,
        }
    }

    /// Takes in what the caller observed and moves on.
    pub fn advance(self, event: InitEvent) -> (next: InitStage)
        ensures
            next@ == next_stage(self@, event),
    {
        match (self, event) {
            (InitStage::CreatingDirectory, InitEvent::DirectoryCreated(outcome)) => match outcome {
                Ok(_) => InitStage::Initializing,
                Err(detail) => InitStage::Done(Err(InitError::Directory(detail))),
            },
            (InitStage::Initializing, InitEvent::NpmFinished(outcome)) => match outcome {
                NpmOutcome::Succeeded => InitStage::Installing(InstallStep::Tooling),
                NpmOutcome::Failed => InitStage::Done(Err(InitError::NpmInit)),
                NpmOutcome::NotLaunched(detail) => InitStage::Done(
                    Err(InitError::NpmLaunch(detail)),
                ),
            },
            (InitStage::Installing(step), InitEvent::NpmFinished(outcome)) => match outcome {
                NpmOutcome::Succeeded => match step {
                    InstallStep::Tooling => InitStage::Installing(InstallStep::Slides),
                    InstallStep::Slides => InitStage::Installing(InstallStep::Vite),
                    InstallStep::Vite => InitStage::Installing(InstallStep::PatchPackage),
                    InstallStep::PatchPackage => InitStage::WritingConfig,
                },
                NpmOutcome::Failed => InitStage::Done(Err(InitError::NpmInstall(step))),
                NpmOutcome::NotLaunched(detail) => InitStage::Done(
                    Err(InitError::NpmLaunch(detail)),
                ),
            },
            (InitStage::WritingConfig, InitEvent::ConfigWritten(outcome)) => match outcome {
                Ok(_) => InitStage::WritingFile(Asset::ViteConfig),
                Err(detail) => InitStage::Done(Err(InitError::WriteConfig(detail))),
            },
            (InitStage::WritingFile(asset), InitEvent::FileWritten(outcome)) => match outcome {
                Ok(_) => match asset {
                    Asset::ViteConfig => InitStage::WritingFile(Asset::IndexHtml),
                    Asset::IndexHtml => InitStage::WritingFile(Asset::MainJs),
                    Asset::MainJs => InitStage::WritingFile(Asset::Slides),
                    Asset::Slides => InitStage::WritingFile(Asset::CustomCss),
                    Asset::CustomCss => InitStage::WritingFile(Asset::Ferris),
                    Asset::Ferris => InitStage::Done(Ok(())),
                },
                Err(detail) => InitStage::Done(Err(InitError::WriteFile(asset, detail))),
            },
            (stage, _) => stage,
        }
    }

    /// The result, once the setup is over.
    pub fn result(self) -> (result: Option<Result<(), InitError>>)
        ensures
            match result {
                Some(outcome) => self == InitStage::Done(outcome),
                None => !(self is Done),
            },
    {
        match self {
            InitStage::Done(outcome) => Some(outcome),
            _ => None,
        }
    }
}

/// A setup that is over stays as it is, whatever is observed afterwards.
pub proof fn lemma_done_is_final(outcome: Result<(), InitErrorView>, events: Seq<InitEvent>)
    ensures
        stage_after(InitStageView::Done(outcome), events) == InitStageView::Done(outcome),
    decreases events.len(),
{
    if events.len() > 0 {
        lemma_done_is_final(outcome, events.drop_first());
    }
}

/// A setup never goes back: whatever is observed, the stage stays or moves
/// forward, so no npm call is made twice and no file is written twice.
pub proof fn lemma_setup_never_goes_back(stage: InitStageView, events: Seq<InitEvent>)
    ensures
        rank(stage) <= rank(stage_after(stage, events)),
    decreases events.len(),
{
    if events.len() > 0 {
        let next = next_stage(stage, events[0]);
        assert(rank(stage) <= rank(next));
        lemma_setup_never_goes_back(next, events.drop_first());
    }
}

/// An npm call that reports failure ends the setup at once, with the error
/// of that call, and it stays ended: nothing is installed or written
/// afterwards, whatever is observed.
pub proof fn lemma_failed_npm_call_ends_setup(stage: InitStageView, later: Seq<InitEvent>)
    requires
        stage is Initializing || stage is Installing,
    ensures
        stage_after(stage, seq![InitEvent::NpmFinished(NpmOutcome::Failed)] + later)
            == InitStageView::Done(
            Err(
                match stage {
                    InitStageView::Installing(step) => InitErrorView::NpmInstall(step),
                    _ => InitErrorView::NpmInit,
                },
            ),
        ),
{
    let events = seq![InitEvent::NpmFinished(NpmOutcome::Failed)] + later;
    assert(events.drop_first() =~= later);
    let err = match stage {
        InitStageView::Installing(step) => InitErrorView::NpmInstall(step),
        _ => InitErrorView::NpmInit,
    };
    lemma_done_is_final(Err(err), later);
}

} // verus!
