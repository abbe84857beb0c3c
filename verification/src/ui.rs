//! Plain types the launcher front end exchanges with this subsystem:
//! command-line actions, surface visibility, and preview-grid messages.

use vstd::prelude::*;

verus! {

/// The launcher actions reachable from the command line: both bring up the
/// task-switcher view, walking the window list forward or backward.
#[derive(Debug, Clone, Copy, PartialEq, Eq, Structural)]
pub enum LauncherTasks {
    AltTab,
    ShiftAltTab,
}

/// Parsed command-line arguments: at most one launcher action.
#[derive(Debug, Clone)]
pub struct Args {
    pub subcommand: Option<LauncherTasks>,
}

impl Args {
    /// The action requested on the command line, if any.
    pub fn action(&self) -> (r: Option<&LauncherTasks>)
        ensures
            match r {
                Some(t) => self.subcommand == Some(*t),
                None => self.subcommand is None,
            },
    {
        self.subcommand.as_ref()
    }
}

/// Visibility of the launcher's layer surface.
#[derive(Debug, Clone, Copy, PartialEq, Eq, Structural)]
pub enum SurfaceState {
    Visible,
    Hidden,
    WaitingToBeShown,
}

/// What the preview grid reports for a window tile, by its index in the
/// grid.
#[derive(Debug, Clone, Copy, PartialEq, Eq, Structural)]
pub enum PreviewMessage {
    WindowSelected(usize),
    WindowActivated(usize),
}

} // verus!
