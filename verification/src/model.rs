//! The plain values that the panel and the diff views work on.

use crate::vs_file_diff_view::VsDiffKind;
use vstd::prelude::*;
use vstd::string::*;

verus! {

/// How much of a file's change is in the index.
#[derive(Debug, Clone, Copy, PartialEq, Eq, Structural)]
pub enum StageStatus {
    Staged,
    Unstaged,
    PartiallyStaged,
}

impl StageStatus {
    /// Whether some of the change is in the index.
    pub open spec fn spec_has_staged(self) -> bool {
        self == StageStatus::Staged || self == StageStatus::PartiallyStaged
    }

    /// Whether some of the change is in the index.
    pub fn has_staged(self) -> (r: bool)
        ensures
            r == self.spec_has_staged(),
    {
        match self {
            StageStatus::Staged => true,
            StageStatus::PartiallyStaged => true,
            StageStatus::Unstaged => false,
        }
    }
}

/// What is known of the state of a file.
#[derive(Debug, Clone, Copy, PartialEq, Eq, Structural)]
pub struct FileStatus {
    pub conflicted: bool,
    pub created: bool,
    pub deleted: bool,
    pub staging: StageStatus,
}

/// What a commit, or a branch, did to a file.
#[derive(Debug, Clone, Copy, PartialEq, Eq, Structural)]
pub enum CommitFileStatus {
    Added,
    Modified,
    Deleted,
}

/// A path within a repository, in its parts.
#[derive(Debug, PartialEq, Eq)]
pub struct RepoPath {
    /// The whole path, with `/` between its segments.
    pub path: String,
    /// The last segment, if there is one.
    pub file_name: Option<String>,
    /// The path without its last segment, if there is one.
    pub parent: Option<String>,
}

impl Clone for RepoPath {
    fn clone(&self) -> (r: Self)
        ensures
            r == *self,
    {
        RepoPath {
            path: self.path.clone(),
            file_name: self.file_name.clone(),
            parent: self.parent.clone(),
        }
    }
}

/// A path within a worktree of the project.
#[derive(Debug, PartialEq, Eq)]
pub struct ProjectPath {
    pub worktree_id: u64,
    pub path: String,
}

impl ProjectPath {
    /// The two paths name the same file.
    pub open spec fn same(self, other: ProjectPath) -> bool {
        self.worktree_id == other.worktree_id && self.path@ == other.path@
    }

    /// Whether the two paths name the same file.
    pub fn same_as(&self, other: &ProjectPath) -> (r: bool)
        ensures
            r == self.same(*other),
    {
        self.worktree_id == other.worktree_id && self.path == other.path
    }
}

impl Clone for ProjectPath {
    fn clone(&self) -> (r: Self)
        ensures
            r == *self,
    {
        ProjectPath { worktree_id: self.worktree_id, path: self.path.clone() }
    }
}

/// A file that has changes.
#[derive(Debug, PartialEq, Eq)]
pub struct StatusEntry {
    pub repo_path: RepoPath,
    pub status: FileStatus,
}

/// A commit in the history of the branch.
#[derive(Debug, PartialEq, Eq)]
pub struct FileHistoryEntry {
    pub sha: String,
    pub subject: String,
    pub author_name: String,
    pub commit_timestamp: i64,
}

/// A file that a commit touched, with its text before and after.
#[derive(Debug, PartialEq, Eq)]
pub struct CommitFile {
    pub path: RepoPath,
    pub status: CommitFileStatus,
    pub old_text: Option<String>,
    pub new_text: Option<String>,
}

/// A file that differs between the branch and its base.
#[derive(Debug, PartialEq, Eq)]
pub struct ComparedFile {
    pub path: RepoPath,
    pub status: CommitFileStatus,
}

/// A git worktree; `id` is the place it has in the list it came from.
#[derive(Debug, PartialEq, Eq)]
pub struct Worktree {
    pub id: usize,
    /// The branch that is checked out in it, unless it is detached.
    pub ref_name: Option<String>,
}

/// The branch that is checked out.
#[derive(Debug, PartialEq, Eq)]
pub struct Branch {
    pub name: String,
    /// The reference that it tracks.
    pub upstream: Option<String>,
}

/// What the panel reads of a repository.
#[derive(Debug, PartialEq, Eq)]
pub struct Repository {
    pub display_name: String,
    pub branch: Option<Branch>,
    pub cached_status: Vec<StatusEntry>,
}

/// A tab of the active pane.
#[derive(Debug, PartialEq, Eq)]
pub enum PaneItem {
    FileDiff { project_path: Option<ProjectPath>, diff_kind: VsDiffKind },
    CommitDiff { full_path: String, sha_short: String },
    Other,
}

/// The colors of the panel's texts.
#[derive(Debug, Clone, Copy, PartialEq, Eq, Structural)]
pub enum Color {
    Default,
    Muted,
    Accent,
    Created,
    Modified,
    Deleted,
    Warning,
}

/// The icons of the panel and the diff views.
#[derive(Debug, Clone, Copy, PartialEq, Eq, Structural)]
pub enum IconName {
    ArrowDown,
    ArrowUp,
    Check,
    ChevronDown,
    ChevronRight,
    Dash,
    Diff,
    File,
    GitBranch,
    Plus,
    Undo,
}

/// A text and the color it is shown in.
#[derive(Debug, Clone, Copy, PartialEq, Eq)]
pub struct Label {
    pub text: &'static str,
    pub color: Color,
}

/// The text of `text`, or no text.
pub open spec fn text_or_empty(text: Option<String>) -> Seq<char> {
    match text {
        Some(text) => text@,
        None => Seq::empty(),
    }
}

/// The text of `text`, or no text.
pub fn unwrap_or_empty(text: &Option<String>) -> (r: String)
    ensures
        r@ == text_or_empty(*text),
{
    match text {
        Some(text) => text.clone(),
        None => String::new(),
    }
}

} // verus!
