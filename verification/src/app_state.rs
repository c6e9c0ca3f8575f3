//! The top-level application state machine: the main menu or a run, and
//! within a run the planning, combat or recovery phase.

use vstd::prelude::*;

verus! {

/// Whether the application shows the main menu or is inside a run.
#[derive(Debug, Clone, Copy, PartialEq, Eq, Hash, Structural)]
pub enum AppState {
    MainMenu,
    InRun,
}

/// The phase of the current run.
#[derive(Debug, Clone, Copy, PartialEq, Eq, Hash, Structural)]
pub enum RunState {
    Planning,
    Combat,
    Recovery,
}

impl Default for AppState {
    /// The application starts at the main menu.
    fn default() -> (s: AppState)
        ensures
            s == AppState::MainMenu,
    {
        AppState::MainMenu
    }
}

impl Default for RunState {
    /// A run starts in the planning phase.
    fn default() -> (s: RunState)
        ensures
            s == RunState::Planning,
    {
        RunState::Planning
    }
}

/// The states the startup step switches into: straight into a run, in its
/// planning phase.
pub fn initial_states() -> (s: (AppState, RunState))
    ensures
        s.0 == AppState::InRun,
        s.1 == RunState::Planning,
{
    (AppState::InRun, RunState::Planning)
}

} // verus!
