//! The toolbar above a diff.

use crate::model::{IconName, ProjectPath};
use vstd::prelude::*;

verus! {

/// The diff that the toolbar works on, by a handle.
pub enum ActiveDiffView<F, C> {
    File(F),
    Commit(C),
}

/// Where an item of a toolbar is shown.
#[derive(Debug, Clone, Copy, PartialEq, Eq, Structural)]
pub enum ToolbarItemLocation {
    Hidden,
    PrimaryLeft,
    PrimaryRight,
}

/// A step from hunk to hunk.
#[derive(Debug, Clone, Copy, PartialEq, Eq, Structural)]
pub enum HunkAction {
    GoToPreviousHunk,
    GoToHunk,
}

/// A button that steps from hunk to hunk.
#[derive(Debug, Clone, Copy, PartialEq, Eq)]
pub struct HunkButton {
    pub id: &'static str,
    pub icon: IconName,
    pub tooltip: &'static str,
    pub action: HunkAction,
}

/// What the toolbar shows.
#[derive(Debug, PartialEq, Eq)]
pub enum ToolbarView {
    Empty,
    Buttons { open_file: Option<ProjectPath>, previous: HunkButton, next: HunkButton },
}

/// What a click on a hunk button does.
#[derive(Debug, Clone, Copy, PartialEq, Eq, Structural)]
pub struct Dispatch {
    /// The right side of the diff gets the focus first.
    pub focus_rhs: bool,
    pub action: HunkAction,
}

/// What is known of the diff behind a handle.
#[derive(Debug, PartialEq, Eq)]
pub struct ShownDiff {
    pub project_path: Option<ProjectPath>,
}

/// The state of the toolbar: the diff it works on, of handle type `F` for the diff of a
/// file and `C` for that of a commit, and a handle of the workspace.
pub struct VsDiffToolbar<F, C, W> {
    pub active_view: Option<ActiveDiffView<F, C>>,
    pub workspace: W,
}

/// The button for the previous hunk.
pub open spec fn previous_button() -> HunkButton {
    HunkButton {
        id: "prev-hunk",
        icon: IconName::ArrowUp,
        tooltip: "Go to previous change",
        action: HunkAction::GoToPreviousHunk,
    }
}

/// The button for the next hunk.
pub open spec fn next_button() -> HunkButton {
    HunkButton {
        id: "next-hunk",
        icon: IconName::ArrowDown,
        tooltip: "Go to next change",
        action: HunkAction::GoToHunk,
    }
}

impl<F, C, W> VsDiffToolbar<F, C, W> {
    /// A toolbar without a diff.
    pub fn new(workspace: W) -> (r: Self)
        ensures
            r.active_view is None,
            r.workspace == workspace,
    {
        VsDiffToolbar { active_view: None, workspace }
    }

    /// Takes note of which item of the pane is active, by what it can act as: the diff of
    /// a file, or else the diff of a commit. The toolbar is shown above a diff only.
    pub fn set_active_pane_item(&mut self, file_view: Option<F>, commit_view: Option<C>) -> (r:
        ToolbarItemLocation)
        ensures
            final(self).workspace == old(self).workspace,
            final(self).active_view == match file_view {
                Some(view) => Some(ActiveDiffView::File(view)),
                None => match commit_view {
                    Some(view) => Some(ActiveDiffView::Commit(view)),
                    None => None,
                },
            },
            r == if file_view is Some || commit_view is Some {
                ToolbarItemLocation::PrimaryRight
            } else {
                ToolbarItemLocation::Hidden
            },
    {
        self.active_view = match file_view {
            Some(view) => Some(ActiveDiffView::File(view)),
            None => match commit_view {
                Some(view) => Some(ActiveDiffView::Commit(view)),
                None => None,
            },
        };
        if self.active_view.is_some() {
            ToolbarItemLocation::PrimaryRight
        } else {
            ToolbarItemLocation::Hidden
        }
    }

    /// What a click on a hunk button does, where `is_open` says whether the diff that the
    /// toolbar works on is still there.
    pub fn dispatch_action(&self, action: HunkAction, is_open: bool) -> (r: Dispatch)
        ensures
            r == (Dispatch { focus_rhs: self.active_view is Some && is_open, action }),
    {
        Dispatch { focus_rhs: self.active_view.is_some() && is_open, action }
    }

    /// What the toolbar shows, where `shown` is the diff that it works on, if that is still
    /// there. A diff of a file of the project has a button to open the file.
    pub fn render(&self, shown: Option<ShownDiff>) -> (r: ToolbarView)
        ensures
            r == if self.active_view is Some && shown is Some {
                ToolbarView::Buttons {
                    open_file: shown->0.project_path,
                    previous: previous_button(),
                    next: next_button(),
                }
            } else {
                ToolbarView::Empty
            },
    {
        if self.active_view.is_none() {
            return ToolbarView::Empty;
        }
        match shown {
            None => ToolbarView::Empty,
            Some(shown) => ToolbarView::Buttons {
                open_file: shown.project_path,
                previous: HunkButton {
                    id: "prev-hunk",
                    icon: IconName::ArrowUp,
                    tooltip: "Go to previous change",
                    action: HunkAction::GoToPreviousHunk,
                },
                next: HunkButton {
                    id: "next-hunk",
                    icon: IconName::ArrowDown,
                    tooltip: "Go to next change",
                    action: HunkAction::GoToHunk,
                },
            },
        }
    }
}

} // verus!
