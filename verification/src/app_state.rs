//! The part of the terminal application's state that the commands and the send path use.
use vstd::prelude::*;

use crate::harness::{HarnessProfile, HarnessResolution};
use crate::workspace::WorkspacePath;

verus! {

/// A running goal and what it has used so far.
#[derive(Debug, Clone)]
pub struct Hunt {
    pub quarry: Option<String>,
    pub tokens_used: u64,
    pub time_used_seconds: u64,
    pub continuation_count: u32,
}

/// A component of a path, with the text of the path behind it.
#[derive(Debug, Clone)]
pub struct PathStep {
    pub component: String,
    pub rest: String,
}

/// Where the repository's constitution file was found.
#[derive(Debug, Clone)]
pub struct RepoLaw {
    /// The text of the path.
    pub path: String,
    /// The components of the path, in order.
    pub steps: Vec<PathStep>,
    /// The path as the application shows it where it lies outside the workspace.
    pub display: String,
}

/// The application's state.
#[derive(Debug, Clone)]
pub struct App {
    /// The workspace that the application works in.
    pub workspace: WorkspacePath,
    /// User-configured harness profiles.
    pub harness_profiles: Vec<HarnessProfile>,
    /// The posture that is in force.
    pub active_harness_resolution: HarnessResolution,
    /// The provider route in use.
    pub active_provider_route: String,
    /// The model as it is shown.
    pub model_display_label: String,
    /// The repository's constitution, if the workspace has one.
    pub repo_law: Option<RepoLaw>,
    /// Whether a command is paused.
    pub paused: bool,
    /// Whether the running command can be paused.
    pub pausable: bool,
    /// The goal of the paused command.
    pub paused_quarry: Option<String>,
    /// The running goal.
    pub hunt: Hunt,
}

/// The application's hold on the engine: whether the engine is paused.
#[derive(Debug, Clone, Copy, PartialEq, Eq, Structural)]
pub struct EngineHandle {
    pub paused: bool,
}

impl EngineHandle {
    /// Pauses or resumes the engine.
    pub fn set_paused(&mut self, paused: bool)
        ensures
            final(self).paused == paused,
    {
        self.paused = paused;
    }
}

} // verus!
