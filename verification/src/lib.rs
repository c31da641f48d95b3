//! Project lifecycle logic for Oseda slide-deck projects: the closed catalogs a
//! project descriptor draws from, descriptor validation, and the decision
//! procedures that drive running, checking and publishing a project.
//!
//! Nothing here touches processes, the network or files: callers do that work
//! and hand what they observed to these functions as plain values. The one
//! thing read from the outside is the clock.

use vstd::prelude::*;

pub mod categories;
pub mod cmd;
pub mod color;
pub mod config;
pub mod github;
pub mod net;
pub mod tags;
pub mod template;
pub mod text;

verus! {

/// The command line of the tool, parsed.
#[derive(Debug)]
pub struct Cli {
    /// The subcommand to run.
    pub command: Commands,
}

/// A subcommand: an action to take on a project.
#[derive(Debug)]
pub enum Commands {
    /// Set up a new project in the working directory.
    Init(cmd::init::InitOptions),
    /// Build and serve the project in the working directory.
    Run,
    /// Check the project in the working directory for common errors.
    Check(cmd::check::CheckOptions),
    /// Publish the project in the working directory.
    Deploy(cmd::deploy::DeployOptions),
}

} // verus!
