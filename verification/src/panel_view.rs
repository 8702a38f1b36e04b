//! What the panel shows, and what clicks on it do.

use crate::entries::{build_history_list, ChangeGroup, VsGitListEntry};
use crate::model::{text_or_empty, unwrap_or_empty, Color, CommitFileStatus, ComparedFile,
    FileStatus, IconName, Label, PaneItem, ProjectPath, RepoPath, Worktree};
use crate::text::{bracketed_count, decimal, decimal_of, format_relative_time, has_short_sha,
    relative_time_of, short_sha, short_sha_of};
use crate::vs_git_panel::{toggled, ComparedDiffAction, LogRequest, VsGitPanel,
    HISTORY_PAGE_SIZE};
use crate::vs_git_panel_settings::{DockPosition, VsGitPanelSettings, DEFAULT_WIDTH};
use vstd::prelude::*;
use vstd::string::*;

verus! {

/// What a button of the panel does.
#[derive(Debug, Clone, Copy, PartialEq, Eq, Structural)]
pub enum ButtonAction {
    OpenFile,
    Stage,
    Unstage,
    Discard,
    StageGroup { group: ChangeGroup },
    UnstageGroup { group: ChangeGroup },
}

/// A button of the panel.
#[derive(Debug, Clone, Copy, PartialEq, Eq)]
pub struct Button {
    pub id: &'static str,
    pub icon: IconName,
    pub tooltip: &'static str,
    pub action: ButtonAction,
}

/// The header of a group.
#[derive(Debug, PartialEq, Eq)]
pub struct GroupHeaderView {
    pub label: &'static str,
    pub count: String,
    pub button: Option<Button>,
}

/// The row of a changed file.
#[derive(Debug, PartialEq, Eq)]
pub struct FileEntryView {
    pub filename: String,
    pub parent: Option<String>,
    pub letter: &'static str,
    pub color: Color,
    pub selected: bool,
    pub buttons: Vec<Button>,
}

/// A row of the list of changed files.
#[derive(Debug, PartialEq, Eq)]
pub enum StatusRowView {
    Header { header: GroupHeaderView },
    File { file: FileEntryView },
    Empty,
}

/// The row of a file of a commit, or of a compared file.
#[derive(Debug, PartialEq, Eq)]
pub struct CommitFileView {
    pub filename: String,
    pub parent: Option<String>,
    pub letter: &'static str,
    pub color: Color,
    pub selected: bool,
}

/// The row of a commit.
#[derive(Debug, PartialEq, Eq)]
pub struct CommitEntryView {
    pub subject: String,
    pub sha_short: String,
    pub author: String,
    pub time: String,
    pub chevron: IconName,
    pub selected: bool,
}

/// A row of the list of commits.
#[derive(Debug, PartialEq, Eq)]
pub enum HistoryRowView {
    Commit { commit: CommitEntryView },
    File { file: CommitFileView },
    LoadMore { label: Label },
    Empty,
}

/// A title with a count, and a chevron that shows whether the section is collapsed.
#[derive(Debug, PartialEq, Eq)]
pub struct SectionHeaderView {
    pub title: String,
    pub count: String,
    pub chevron: IconName,
}

/// The section of compared files.
#[derive(Debug, PartialEq, Eq)]
pub struct ComparedSectionView {
    pub header: SectionHeaderView,
    pub files: Vec<CommitFileView>,
}

/// An item of a menu; `id` is the place of what it stands for in the list it came from.
#[derive(Debug, PartialEq, Eq)]
pub struct MenuItem {
    pub id: usize,
    pub name: String,
    pub is_active: bool,
}

/// A menu.
#[derive(Debug, PartialEq, Eq)]
pub struct Menu {
    pub label: String,
    pub items: Vec<MenuItem>,
}

/// The line that shows the repository and the branch.
#[derive(Debug, PartialEq, Eq)]
pub struct BranchIndicatorView {
    pub repositories: Option<Menu>,
    pub worktrees: Option<Menu>,
    pub branch: Option<String>,
}

/// Where a worktree is opened.
#[derive(Debug, Clone, Copy, PartialEq, Eq, Structural)]
pub enum WorktreeOpening {
    LocalWindow,
    RemoteWindow,
    Nowhere,
}

/// What a click on a changed file opens.
#[derive(Debug, Clone, Copy, PartialEq, Eq, Structural)]
pub enum FileClick {
    OpenFile,
    OpenDiff,
}

/// Which parts of the panel are shown.
#[derive(Debug, Clone, Copy, PartialEq, Eq, Structural)]
pub struct PanelLayout {
    pub entries: bool,
    pub empty_state: bool,
    pub bottom_section: bool,
    /// The bottom section has a height of its own, and a handle to drag it with.
    pub resizable_bottom: bool,
    pub compared: bool,
    pub history_header: bool,
    pub history_list: bool,
}

/// The color of a changed file.
pub open spec fn status_color(status: FileStatus) -> Color {
    if status.conflicted {
        Color::Warning
    } else if status.created {
        Color::Created
    } else if status.deleted {
        Color::Deleted
    } else {
        Color::Modified
    }
}

/// The letter of a changed file.
pub open spec fn status_letter(status: FileStatus) -> &'static str {
    if status.conflicted {
        "C"
    } else if status.created {
        "U"
    } else if status.deleted {
        "D"
    } else {
        "M"
    }
}

/// The color of a changed file.
pub fn git_status_color(status: FileStatus) -> (r: Color)
    ensures
        r == status_color(status),
{
    if status.conflicted {
        Color::Warning
    } else if status.created {
        Color::Created
    } else if status.deleted {
        Color::Deleted
    } else {
        Color::Modified
    }
}

/// The letter of a changed file.
pub fn git_status_letter(status: FileStatus) -> (r: &'static str)
    ensures
        r == status_letter(status),
{
    if status.conflicted {
        "C"
    } else if status.created {
        "U"
    } else if status.deleted {
        "D"
    } else {
        "M"
    }
}

/// The letter and color of a file of a commit.
pub open spec fn commit_badge(status: CommitFileStatus) -> (&'static str, Color) {
    match status {
        CommitFileStatus::Added => ("A", Color::Created),
        CommitFileStatus::Modified => ("M", Color::Modified),
        CommitFileStatus::Deleted => ("D", Color::Deleted),
    }
}

/// The letter and color of a file of a commit.
pub fn commit_file_badge(status: CommitFileStatus) -> (r: (&'static str, Color))
    ensures
        r == commit_badge(status),
{
    match status {
        CommitFileStatus::Added => ("A", Color::Created),
        CommitFileStatus::Modified => ("M", Color::Modified),
        CommitFileStatus::Deleted => ("D", Color::Deleted),
    }
}

/// The chevron of a section or a commit.
pub open spec fn chevron_of(collapsed: bool) -> IconName {
    if collapsed { IconName::ChevronRight } else { IconName::ChevronDown }
}

fn chevron(collapsed: bool) -> (r: IconName)
    ensures
        r == chevron_of(collapsed),
{
    if collapsed { IconName::ChevronRight } else { IconName::ChevronDown }
}

/// The directory that is shown beside a file name; the top directory is not.
pub open spec fn shown_parent(path: RepoPath) -> Option<String> {
    match path.parent {
        Some(parent) => if parent@.len() > 0 { Some(parent) } else { None },
        None => None,
    }
}

fn parent_of(path: &RepoPath) -> (r: Option<String>)
    ensures
        r == shown_parent(*path),
{
    match &path.parent {
        Some(parent) => if parent.as_str().is_empty() {
            None
        } else {
            Some(parent.clone())
        },
        None => None,
    }
}

/// The button in the header of a group.
pub open spec fn group_button(group: ChangeGroup) -> Option<Button> {
    match group {
        ChangeGroup::StagedChanges => Some(
            Button {
                id: "unstage-all",
                icon: IconName::Dash,
                tooltip: "Unstage All",
                action: ButtonAction::UnstageGroup { group: ChangeGroup::StagedChanges },
            },
        ),
        ChangeGroup::Changes => Some(
            Button {
                id: "stage-all",
                icon: IconName::Plus,
                tooltip: "Stage All",
                action: ButtonAction::StageGroup { group: ChangeGroup::Changes },
            },
        ),
        ChangeGroup::MergeConflicts => None,
    }
}

/// The buttons beside a file of a group.
pub open spec fn file_buttons(group: ChangeGroup) -> Seq<Button> {
    let open = Button {
        id: "open-file",
        icon: IconName::File,
        tooltip: "Open File",
        action: ButtonAction::OpenFile,
    };
    match group {
        ChangeGroup::StagedChanges => seq![
            open,
            Button {
                id: "unstage",
                icon: IconName::Dash,
                tooltip: "Unstage",
                action: ButtonAction::Unstage,
            },
        ],
        ChangeGroup::Changes => seq![
            open,
            Button {
                id: "stage",
                icon: IconName::Plus,
                tooltip: "Stage",
                action: ButtonAction::Stage,
            },
            Button {
                id: "discard",
                icon: IconName::Undo,
                tooltip: "Discard Changes",
                action: ButtonAction::Discard,
            },
        ],
        ChangeGroup::MergeConflicts => seq![
            open,
            Button {
                id: "stage-conflict",
                icon: IconName::Plus,
                tooltip: "Stage (Mark as Resolved)",
                action: ButtonAction::Stage,
            },
        ],
    }
}

fn make_file_buttons(group: ChangeGroup) -> (r: Vec<Button>)
    ensures
        r@ == file_buttons(group),
{
    let mut buttons: Vec<Button> = Vec::new();
    buttons.push(
        Button {
            id: "open-file",
            icon: IconName::File,
            tooltip: "Open File",
            action: ButtonAction::OpenFile,
        },
    );
    match group {
        ChangeGroup::StagedChanges => {
            buttons.push(
                Button {
                    id: "unstage",
                    icon: IconName::Dash,
                    tooltip: "Unstage",
                    action: ButtonAction::Unstage,
                },
            );
        },
        ChangeGroup::Changes => {
            buttons.push(
                Button {
                    id: "stage",
                    icon: IconName::Plus,
                    tooltip: "Stage",
                    action: ButtonAction::Stage,
                },
            );
            buttons.push(
                Button {
                    id: "discard",
                    icon: IconName::Undo,
                    tooltip: "Discard Changes",
                    action: ButtonAction::Discard,
                },
            );
        },
        ChangeGroup::MergeConflicts => {
            buttons.push(
                Button {
                    id: "stage-conflict",
                    icon: IconName::Plus,
                    tooltip: "Stage (Mark as Resolved)",
                    action: ButtonAction::Stage,
                },
            );
        },
    }
    assert(buttons@ =~= file_buttons(group));
    buttons
}

/// `view` is the header of a group of `count` files.
pub open spec fn is_group_header(view: GroupHeaderView, group: ChangeGroup, count: usize) -> bool {
    &&& view.label == group.spec_label()
    &&& view.count@ == "("@ + decimal_of(count as nat) + ")"@
    &&& view.button == group_button(group)
}

/// The header of a group of `count` files.
pub fn render_group_header(group: ChangeGroup, count: usize) -> (r: GroupHeaderView)
    ensures
        is_group_header(r, group, count),
{
    let button = match group {
        ChangeGroup::StagedChanges => Some(
            Button {
                id: "unstage-all",
                icon: IconName::Dash,
                tooltip: "Unstage All",
                action: ButtonAction::UnstageGroup { group: ChangeGroup::StagedChanges },
            },
        ),
        ChangeGroup::Changes => Some(
            Button {
                id: "stage-all",
                icon: IconName::Plus,
                tooltip: "Stage All",
                action: ButtonAction::StageGroup { group: ChangeGroup::Changes },
            },
        ),
        ChangeGroup::MergeConflicts => None,
    };
    GroupHeaderView { label: group.label(), count: bracketed_count(count, ")"), button }
}

/// `view` is the row of a file of a commit.
pub open spec fn is_commit_file_row(
    view: CommitFileView,
    path: RepoPath,
    status: CommitFileStatus,
    selected: bool,
) -> bool {
    &&& view.filename@ == text_or_empty(path.file_name)
    &&& view.parent == shown_parent(path)
    &&& (view.letter, view.color) == commit_badge(status)
    &&& view.selected == selected
}

fn make_commit_file_row(path: &RepoPath, status: CommitFileStatus, selected: bool) -> (r:
    CommitFileView)
    ensures
        is_commit_file_row(r, *path, status, selected),
{
    let badge = commit_file_badge(status);
    CommitFileView {
        filename: unwrap_or_empty(&path.file_name),
        parent: parent_of(path),
        letter: badge.0,
        color: badge.1,
        selected,
    }
}

/// The color of an item of a menu.
pub fn menu_item_color(is_active: bool) -> (r: Color)
    ensures
        r == if is_active { Color::Accent } else { Color::Default },
{
    if is_active { Color::Accent } else { Color::Default }
}

/// Where a worktree is opened: in a new window, here or on the host of the project. A
/// remote project that is not connected opens nothing.
pub fn open_worktree(is_local: bool, is_connected: bool) -> (r: WorktreeOpening)
    ensures
        r == if is_local {
            WorktreeOpening::LocalWindow
        } else if is_connected {
            WorktreeOpening::RemoteWindow
        } else {
            WorktreeOpening::Nowhere
        },
{
    if is_local {
        WorktreeOpening::LocalWindow
    } else if is_connected {
        WorktreeOpening::RemoteWindow
    } else {
        WorktreeOpening::Nowhere
    }
}

/// `menu` offers the repositories in `names`, of which that with name `active` is in use.
pub open spec fn is_repository_menu(menu: Menu, names: Seq<String>, active: Seq<char>) -> bool {
    &&& menu.label@ == active
    &&& menu.items@.len() == names.len()
    &&& forall|i: int|
        0 <= i < names.len() ==> (#[trigger] menu.items@[i]).id == i && menu.items@[i].name
            == names[i] && menu.items@[i].is_active == (names[i]@ == active)
}

/// The name that a worktree is offered under.
pub open spec fn worktree_name(worktree: Worktree) -> Seq<char> {
    match worktree.ref_name {
        Some(name) => name@,
        None => "(detached)"@,
    }
}

/// `menu` offers `worktrees`, of which that on branch `branch` is in use.
pub open spec fn is_worktree_menu(menu: Menu, worktrees: Seq<Worktree>, branch: Seq<char>) -> bool {
    &&& menu.label@ == branch
    &&& menu.items@.len() == worktrees.len()
    &&& forall|i: int|
        0 <= i < worktrees.len() ==> (#[trigger] menu.items@[i]).id == worktrees[i].id
            && menu.items@[i].name@ == worktree_name(worktrees[i]) && menu.items@[i].is_active == (
        worktree_name(worktrees[i]) == branch)
}

fn repository_menu(names: &Vec<String>, active: String) -> (r: Menu)
    ensures
        is_repository_menu(r, names@, active@),
{
    let mut items: Vec<MenuItem> = Vec::new();
    let mut i: usize = 0;
    while i < names.len()
        invariant
            i <= names.len(),
            items.len() == i,
            forall|j: int|
                0 <= j < i ==> (#[trigger] items@[j]).id == j && items@[j].name == names@[j]
                    && items@[j].is_active == (names@[j]@ == active@),
        decreases names.len() - i,
    {
        let is_active = names[i] == active;
        items.push(MenuItem { id: i, name: names[i].clone(), is_active });
        i = i + 1;
    }
    Menu { label: active, items }
}

fn worktree_menu(worktrees: &Vec<Worktree>, branch: String) -> (r: Menu)
    ensures
        is_worktree_menu(r, worktrees@, branch@),
{
    let mut items: Vec<MenuItem> = Vec::new();
    let mut i: usize = 0;
    while i < worktrees.len()
        invariant
            i <= worktrees.len(),
            items.len() == i,
            forall|j: int|
                0 <= j < i ==> (#[trigger] items@[j]).id == worktrees@[j].id && items@[j].name@
                    == worktree_name(worktrees@[j]) && items@[j].is_active == (worktree_name(
                    worktrees@[j],
                ) == branch@),
        decreases worktrees.len() - i,
    {
        let name = match &worktrees[i].ref_name {
            Some(name) => name.clone(),
            None => "(detached)".to_string(),
        };
        let is_active = name == branch;
        items.push(MenuItem { id: worktrees[i].id, name, is_active });
        i = i + 1;
    }
    Menu { label: branch, items }
}

/// The text and color of the button that loads more commits.
pub fn render_load_more() -> (r: Label)
    ensures
        r == (Label { text: "Load More...", color: Color::Accent }),
{
    Label { text: "Load More...", color: Color::Accent }
}

/// The text that is shown where there is nothing to list.
pub fn render_empty_state() -> (r: Label)
    ensures
        r == (Label { text: "No changes", color: Color::Muted }),
{
    Label { text: "No changes", color: Color::Muted }
}

impl VsGitPanel {
    /// The name under which the active repository is shown.
    pub open spec fn shown_repository(self) -> Seq<char> {
        match self.active_repository {
            Some(repository) => repository.display_name@,
            None => "repo"@,
        }
    }

    /// The line that shows the repository and the branch, where `repositories` are the
    /// names of all repositories. There is a menu where there is a choice.
    pub fn render_branch_indicator(&self, repositories: &Vec<String>) -> (r: BranchIndicatorView)
        ensures
            r.repositories is Some <==> repositories@.len() > 1,
            r.repositories matches Some(menu) ==> is_repository_menu(
                menu,
                repositories@,
                self.shown_repository(),
            ),
            r.worktrees is Some <==> self.git_worktrees@.len() > 1,
            r.worktrees matches Some(menu) ==> is_worktree_menu(
                menu,
                self.git_worktrees@,
                self.shown_branch(),
            ),
            r.branch is Some <==> self.git_worktrees@.len() <= 1,
            r.branch matches Some(branch) ==> branch@ == self.shown_branch(),
    {
        let branch = self.branch_name();
        let repo_name = match self.repo_display_name() {
            Some(name) => name,
            None => "repo".to_string(),
        };
        let repositories = if repositories.len() > 1 {
            Some(repository_menu(repositories, repo_name))
        } else {
            None
        };
        if self.git_worktrees.len() > 1 {
            let worktrees = Some(worktree_menu(&self.git_worktrees, branch));
            BranchIndicatorView { repositories, worktrees, branch: None }
        } else {
            BranchIndicatorView { repositories, worktrees: None, branch: Some(branch) }
        }
    }

    /// `view` is the row of a changed file.
    pub open spec fn is_file_entry(
        self,
        view: FileEntryView,
        ix: usize,
        path: RepoPath,
        status: FileStatus,
        group: ChangeGroup,
    ) -> bool {
        &&& view.filename@ == text_or_empty(path.file_name)
        &&& view.parent == shown_parent(path)
        &&& view.letter == status_letter(status)
        &&& view.color == status_color(status)
        &&& view.selected == (self.selected_entry == Some(ix))
        &&& view.buttons@ == file_buttons(group)
    }

    fn is_selected(&self, ix: usize) -> (r: bool)
        ensures
            r == (self.selected_entry == Some(ix)),
    {
        match self.selected_entry {
            Some(selected) => selected == ix,
            None => false,
        }
    }

    /// The row of a changed file.
    pub fn render_file_entry(
        &self,
        ix: usize,
        path: &RepoPath,
        status: FileStatus,
        group: ChangeGroup,
    ) -> (r: FileEntryView)
        ensures
            self.is_file_entry(r, ix, *path, status, group),
    {
        FileEntryView {
            filename: unwrap_or_empty(&path.file_name),
            parent: parent_of(path),
            letter: git_status_letter(status),
            color: git_status_color(status),
            selected: self.is_selected(ix),
            buttons: make_file_buttons(group),
        }
    }

    /// Row `ix` of the list of changed files.
    pub fn render_entries(&self, ix: usize) -> (r: StatusRowView)
        requires
            ix < self.status_entries@.len(),
        ensures
            match self.status_entries@[ix as int] {
                VsGitListEntry::GroupHeader { group, count } => r matches StatusRowView::Header {
                    header,
                } && is_group_header(header, group, count),
                VsGitListEntry::FileEntry { repo_path, status, group, .. } => r matches
                    StatusRowView::File { file } && self.is_file_entry(
                    file,
                    ix,
                    repo_path,
                    status,
                    group,
                ),
                _ => r is Empty,
            },
    {
        match &self.status_entries[ix] {
            VsGitListEntry::GroupHeader { group, count } => StatusRowView::Header {
                header: render_group_header(*group, *count),
            },
            VsGitListEntry::FileEntry { repo_path, status, group, .. } => StatusRowView::File {
                file: self.render_file_entry(ix, repo_path, *status, *group),
            },
            _ => StatusRowView::Empty,
        }
    }

    /// Selects the changed file in row `ix`. A file with conflicts is opened itself, any
    /// other as a diff.
    pub fn click_file_entry(&mut self, ix: usize, group: ChangeGroup) -> (r: FileClick)
        ensures
            *final(self) == (VsGitPanel { selected_entry: Some(ix), ..*old(self) }),
            r == if group == ChangeGroup::MergeConflicts {
                FileClick::OpenFile
            } else {
                FileClick::OpenDiff
            },
            old(self).well_formed() ==> final(self).well_formed(),
            old(self).base_known() ==> final(self).base_known(),
    {
        self.selected_entry = Some(ix);
        if group == ChangeGroup::MergeConflicts {
            FileClick::OpenFile
        } else {
            FileClick::OpenDiff
        }
    }

    /// `view` is the row of compared file `file`.
    pub open spec fn is_compared_row(view: CommitFileView, file: ComparedFile) -> bool {
        is_commit_file_row(view, file.path, file.status, false)
    }

    /// The section of compared files.
    pub fn render_compared_section(&self) -> (r: ComparedSectionView)
        ensures
            r.header.title@ == "Compared to "@ + (match self.base_branch {
                Some(name) => name@,
                None => "?"@,
            }),
            r.header.count@ == "("@ + decimal_of(self.compared_files@.len()) + " files)"@,
            r.header.chevron == chevron_of(self.compared_collapsed),
            r.files@.len() == if self.compared_collapsed {
                0
            } else {
                self.compared_files@.len()
            },
            forall|i: int|
                0 <= i < r.files@.len() ==> Self::is_compared_row(
                    #[trigger] r.files@[i],
                    self.compared_files@[i],
                ),
            forall|i: int|
                0 <= i < r.files@.len() ==> match self.compared_files@[i].status {
                    CommitFileStatus::Added => (#[trigger] r.files@[i]).letter == "A"
                        && r.files@[i].color == Color::Created,
                    CommitFileStatus::Modified => r.files@[i].letter == "M" && r.files@[i].color
                        == Color::Modified,
                    CommitFileStatus::Deleted => r.files@[i].letter == "D" && r.files@[i].color
                        == Color::Deleted,
                },
    {
        let mut title = "Compared to ".to_string();
        match &self.base_branch {
            Some(name) => {
                title.append(name);
            },
            None => {
                title.append("?");
            },
        }
        let count = bracketed_count(self.compared_files.len(), " files)");
        let mut files: Vec<CommitFileView> = Vec::new();
        if !self.compared_collapsed {
            let mut i: usize = 0;
            while i < self.compared_files.len()
                invariant
                    i <= self.compared_files.len(),
                    files.len() == i,
                    forall|j: int|
                        0 <= j < i ==> Self::is_compared_row(
                            #[trigger] files@[j],
                            self.compared_files@[j],
                        ),
                decreases self.compared_files.len() - i,
            {
                files.push(self.render_compared_file_entry(&self.compared_files[i]));
                i = i + 1;
            }
        }
        ComparedSectionView {
            header: SectionHeaderView { title, count, chevron: chevron(self.compared_collapsed) },
            files,
        }
    }

    /// The row of a compared file.
    pub fn render_compared_file_entry(&self, file: &ComparedFile) -> (r: CommitFileView)
        ensures
            Self::is_compared_row(r, *file),
    {
        make_commit_file_row(&file.path, file.status, false)
    }

    /// `base` is the reference that a click on a compared file compares it with: the one that
    /// the files were listed against, or `main` where none is known.
    pub open spec fn is_compared_base(self, base: String) -> bool {
        match self.base_ref {
            Some(base_ref) => base == base_ref,
            None => base@ == "main"@,
        }
    }

    /// The reference that a click on a compared file compares it with.
    pub fn compared_base(&self) -> (r: String)
        ensures
            self.is_compared_base(r),
    {
        match &self.base_ref {
            Some(base_ref) => base_ref.clone(),
            None => "main".to_string(),
        }
    }

    /// `action` is what a click on compared file `ix` comes to.
    pub open spec fn is_compared_click(
        self,
        ix: int,
        project_path: Option<ProjectPath>,
        items: Seq<PaneItem>,
        action: ComparedDiffAction,
    ) -> bool {
        exists|base: String| #[trigger]
            self.is_compared_base(base) && self.is_compared_action(
                base,
                self.compared_files@[ix].path,
                project_path,
                items,
                action,
            )
    }

    /// What a click on compared file `ix` comes to, where `project_path` is where the active
    /// repository has the file and `items` are the tabs of the active pane.
    pub fn click_compared_file(
        &self,
        ix: usize,
        project_path: Option<ProjectPath>,
        items: &Vec<PaneItem>,
    ) -> (r: ComparedDiffAction)
        requires
            ix < self.compared_files@.len(),
        ensures
            self.is_compared_click(ix as int, project_path, items@, r),
    {
        let path = self.compared_files[ix].path.clone();
        self.open_compared_file_diff(self.compared_base(), path, project_path, items)
    }

    /// Collapses or expands the section of compared files.
    pub fn toggle_compared(&mut self)
        ensures
            *final(self) == (VsGitPanel {
                compared_collapsed: !old(self).compared_collapsed,
                ..*old(self)
            }),
            old(self).well_formed() ==> final(self).well_formed(),
            old(self).base_known() ==> final(self).base_known(),
    {
        self.compared_collapsed = !self.compared_collapsed;
    }

    /// The header of the history section.
    pub fn render_history_header_standalone(&self) -> (r: SectionHeaderView)
        ensures
            r.title@ == "Commit History"@,
            r.count@ == "("@ + decimal_of(self.commit_entries@.len()) + ")"@,
            r.chevron == chevron_of(self.history_collapsed),
    {
        SectionHeaderView {
            title: "Commit History".to_string(),
            count: bracketed_count(self.commit_entries.len(), ")"),
            chevron: chevron(self.history_collapsed),
        }
    }

    /// Collapses or expands the history section.
    pub fn toggle_history(&mut self)
        ensures
            *final(self) == (VsGitPanel {
                history_collapsed: !old(self).history_collapsed,
                ..*old(self)
            }).with_rows_of(*final(self)),
            final(self).rows_current(),
            final(self).well_formed(),
            old(self).base_known() ==> final(self).base_known(),
    {
        self.history_collapsed = !self.history_collapsed;
        self.rebuild_entries();
    }

    /// The list of commits.
    pub fn render_history_list(&self) -> (r: Vec<VsGitListEntry>)
        ensures
            r@ == self.commit_list(),
    {
        build_history_list(
            &self.commit_entries,
            &self.expanded_commits,
            &self.commit_files,
            self.has_more_commits,
        )
    }

    /// `view` is the row of a commit, at time `now`.
    pub open spec fn is_commit_entry(
        self,
        view: CommitEntryView,
        ix: usize,
        entry: VsGitListEntry,
        now: i64,
    ) -> bool {
        entry matches VsGitListEntry::CommitEntry { sha, subject, author, timestamp, expanded } && {
            &&& view.subject == subject
            &&& view.sha_short@ == short_sha_of(sha@)
            &&& view.author == author
            &&& view.time@ == relative_time_of(now - timestamp)
            &&& view.chevron == chevron_of(!expanded)
            &&& view.selected == (self.selected_entry == Some(ix))
        }
    }

    /// The row of a commit, at time `now`.
    pub fn render_commit_entry(
        &self,
        ix: usize,
        sha: &String,
        subject: &String,
        author: &String,
        timestamp: i64,
        expanded: bool,
        now: i64,
    ) -> (r: CommitEntryView)
        requires
            has_short_sha(sha@),
            i64::MIN <= now - timestamp <= i64::MAX,
        ensures
            self.is_commit_entry(
                r,
                ix,
                VsGitListEntry::CommitEntry {
                    sha: *sha,
                    subject: *subject,
                    author: *author,
                    timestamp,
                    expanded,
                },
                now,
            ),
    {
        CommitEntryView {
            subject: subject.clone(),
            sha_short: short_sha(sha),
            author: author.clone(),
            time: format_relative_time(timestamp, now),
            chevron: chevron(!expanded),
            selected: self.is_selected(ix),
        }
    }

    /// The row of a file of a commit.
    pub fn render_commit_file_entry(
        &self,
        ix: usize,
        path: &RepoPath,
        status: CommitFileStatus,
    ) -> (r: CommitFileView)
        ensures
            is_commit_file_row(r, *path, status, self.selected_entry == Some(ix)),
    {
        make_commit_file_row(path, status, self.is_selected(ix))
    }

    /// The hash of a commit row can be abbreviated, and its age counted.
    pub open spec fn row_can_be_shown(entry: VsGitListEntry, now: i64) -> bool {
        entry matches VsGitListEntry::CommitEntry { sha, timestamp, .. } ==> has_short_sha(sha@)
            && i64::MIN <= now - timestamp <= i64::MAX
    }

    /// A row of the list of commits, at time `now`.
    pub fn render_history_row(&self, ix: usize, entry: &VsGitListEntry, now: i64) -> (r:
        HistoryRowView)
        requires
            Self::row_can_be_shown(*entry, now),
        ensures
            match *entry {
                VsGitListEntry::CommitEntry { .. } => r matches HistoryRowView::Commit { commit }
                    && self.is_commit_entry(commit, ix, *entry, now),
                VsGitListEntry::CommitFileEntry { path, status, .. } => r matches
                    HistoryRowView::File { file } && is_commit_file_row(
                    file,
                    path,
                    status,
                    self.selected_entry == Some(ix),
                ),
                VsGitListEntry::LoadMoreButton => r == (HistoryRowView::LoadMore {
                    label: Label { text: "Load More...", color: Color::Accent },
                }),
                _ => r is Empty,
            },
    {
        match entry {
            VsGitListEntry::CommitEntry { sha, subject, author, timestamp, expanded } =>
            HistoryRowView::Commit {
                commit: self.render_commit_entry(
                    ix,
                    sha,
                    subject,
                    author,
                    *timestamp,
                    *expanded,
                    now,
                ),
            },
            VsGitListEntry::CommitFileEntry { path, status, .. } => HistoryRowView::File {
                file: self.render_commit_file_entry(ix, path, *status),
            },
            VsGitListEntry::LoadMoreButton => HistoryRowView::LoadMore {
                label: render_load_more(),
            },
            _ => HistoryRowView::Empty,
        }
    }

    /// Selects the commit in row `ix`, and expands or collapses it. Returns the hash of the
    /// commit where its files are to be loaded first.
    pub fn click_commit_entry(&mut self, ix: usize, sha: String) -> (r: Option<String>)
        ensures
            final(self).selected_entry == Some(ix),
            final(self).expanded_commits@ == toggled(old(self).expanded_commits@, sha@),
            ({
                let waits = !old(self).expanded_commits@.contains(sha@)
                    && !old(self).commit_files@.contains_key(sha@);
                let next = VsGitPanel {
                    selected_entry: Some(ix),
                    expanded_commits: final(self).expanded_commits,
                    ..*old(self)
                };
                &&& waits ==> *final(self) == next
                &&& !waits ==> *final(self) == next.with_rows_of(*final(self))
                    && final(self).rows_current() && final(self).well_formed()
                &&& r == if waits && old(self).active_repository is Some {
                    Some(sha)
                } else {
                    None
                }
            }),
            old(self).well_formed() ==> final(self).well_formed(),
            old(self).base_known() ==> final(self).base_known(),
    {
        self.selected_entry = Some(ix);
        self.toggle_commit(sha)
    }

    /// Selects the file of a commit in row `ix`.
    pub fn click_commit_file_entry(&mut self, ix: usize)
        ensures
            *final(self) == (VsGitPanel { selected_entry: Some(ix), ..*old(self) }),
            old(self).well_formed() ==> final(self).well_formed(),
            old(self).base_known() ==> final(self).base_known(),
    {
        self.selected_entry = Some(ix);
    }

    /// The request for the commits behind those that are loaded.
    pub fn load_more(&self) -> (r: Option<LogRequest>)
        ensures
            r == if self.active_repository is Some {
                Some(LogRequest { skip: self.commit_entries.len(), count: HISTORY_PAGE_SIZE })
            } else {
                None
            },
    {
        self.load_history(self.commit_entries.len())
    }

    /// Which parts of the panel are shown.
    pub open spec fn layout(self) -> PanelLayout {
        let has_status = self.status_entries@.len() > 0;
        let has_history = self.history_entries@.len() > 0;
        let has_compared = self.compared_files@.len() > 0;
        let has_bottom = has_history || has_compared;
        PanelLayout {
            entries: has_status,
            empty_state: !has_status && !has_bottom,
            bottom_section: has_bottom,
            resizable_bottom: has_bottom && (!self.history_collapsed || has_compared),
            compared: has_compared,
            history_header: has_history,
            history_list: has_history && !self.history_collapsed,
        }
    }

    /// Which parts of the panel are shown.
    pub fn render(&self) -> (r: PanelLayout)
        ensures
            r == self.layout(),
    {
        let has_status = self.status_entries.len() > 0;
        let has_history = self.history_entries.len() > 0;
        let has_compared = self.compared_files.len() > 0;
        let has_bottom = has_history || has_compared;
        PanelLayout {
            entries: has_status,
            empty_state: !has_status && !has_bottom,
            bottom_section: has_bottom,
            resizable_bottom: has_bottom && (!self.history_collapsed || has_compared),
            compared: has_compared,
            history_header: has_history,
            history_list: has_history && !self.history_collapsed,
        }
    }

    /// The name under which the panel is remembered.
    pub fn persistent_name() -> (r: &'static str)
        ensures
            r == "VsGitPanel",
    {
        "VsGitPanel"
    }

    /// The key of the panel in the settings.
    pub fn panel_key() -> (r: &'static str)
        ensures
            r == "VsGitPanel",
    {
        "VsGitPanel"
    }

    /// The dock that the panel stands in.
    pub fn position(&self) -> (r: DockPosition)
        ensures
            r == DockPosition::Left,
    {
        VsGitPanelSettings::get_global().dock
    }

    /// Whether the panel can stand in a dock.
    pub fn position_is_valid(&self, position: DockPosition) -> (r: bool)
        ensures
            r == (position != DockPosition::Bottom),
    {
        match position {
            DockPosition::Left => true,
            DockPosition::Right => true,
            DockPosition::Bottom => false,
        }
    }

    /// The width of the panel in pixels.
    pub fn default_size(&self) -> (r: u32)
        ensures
            r == DEFAULT_WIDTH,
    {
        VsGitPanelSettings::get_global().default_width
    }

    /// The icon of the panel.
    pub fn icon(&self) -> (r: Option<IconName>)
        ensures
            r == Some(IconName::GitBranch),
    {
        Some(IconName::GitBranch)
    }

    /// The tooltip of the icon.
    pub fn icon_tooltip(&self) -> (r: Option<&'static str>)
        ensures
            r == Some("Source Control"),
    {
        Some("Source Control")
    }

    /// The number that is shown on the icon: that of the changes, if there are any.
    pub fn icon_label(&self) -> (r: Option<String>)
        requires
            self.well_formed(),
        ensures
            r is Some <==> self.staged_count + self.unstaged_count + self.conflict_count > 0,
            r matches Some(label) ==> label@ == decimal_of(
                (self.staged_count + self.unstaged_count + self.conflict_count) as nat,
            ),
    {
        let total: usize = self.total_changes();
        if total > 0 {
            Some(decimal(total as u64))
        } else {
            None
        }
    }

    /// Whether the panel is open from the start.
    pub fn starts_open(&self) -> (r: bool)
        ensures
            !r,
    {
        false
    }

    /// The rank of the panel among the others.
    pub fn activation_priority(&self) -> (r: u32)
        ensures
            r == 4,
    {
        4
    }
}

} // verus!
