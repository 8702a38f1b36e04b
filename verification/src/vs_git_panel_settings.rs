//! The settings of the source control panel.

use vstd::prelude::*;

verus! {

/// The docks of a window.
#[derive(Debug, Clone, Copy, PartialEq, Eq, Structural)]
pub enum DockPosition {
    Left,
    Bottom,
    Right,
}

/// The width of the panel in pixels, unless it is changed.
pub const DEFAULT_WIDTH: u32 = 360;

/// The settings of the source control panel.
#[derive(Debug, Clone, Copy, PartialEq, Eq, Structural)]
pub struct VsGitPanelSettings {
    pub dock: DockPosition,
    /// In pixels.
    pub default_width: u32,
}

impl Default for VsGitPanelSettings {
    fn default() -> (r: Self)
        ensures
            r == (VsGitPanelSettings { dock: DockPosition::Left, default_width: DEFAULT_WIDTH }),
    {
        VsGitPanelSettings { dock: DockPosition::Left, default_width: DEFAULT_WIDTH }
    }
}

impl VsGitPanelSettings {
    /// The settings in force.
    pub fn get_global() -> (r: Self)
        ensures
            r == (VsGitPanelSettings { dock: DockPosition::Left, default_width: DEFAULT_WIDTH }),
    {
        Self::default()
    }
}

} // verus!
