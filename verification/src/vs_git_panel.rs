//! The state of the source control panel, and what it does on each event.

use crate::entries::{build_history_list, collect_group_paths, group_paths, history_list,
    history_rows, members, push_section, status_rows, ChangeGroup, VsGitListEntry};
use crate::entry_laws::{file_count, law_group_paths_are_the_members, lemma_file_count_by_group};
use crate::model::{text_or_empty, unwrap_or_empty, CommitFile, ComparedFile, FileHistoryEntry,
    FileStatus, PaneItem, ProjectPath, RepoPath, Repository, StatusEntry, Worktree};
use crate::text::{has_short_sha, last_segment, last_segment_of, short_sha, short_sha_of};
use crate::view_laws::{law_found_tab_shows_the_commit, law_found_tab_shows_the_file};
use crate::vs_file_diff_view::VsDiffKind;
use vstd::hash_map::StringHashMap;
use vstd::hash_set::StringHashSet;
use vstd::prelude::*;
use vstd::string::*;

verus! {

/// How many commits are loaded at a time.
pub const HISTORY_PAGE_SIZE: usize = 20;

/// How long the panel waits for further changes before it rebuilds its rows.
pub const UPDATE_DEBOUNCE_MILLIS: u64 = 50;

/// The state of the panel.
pub struct VsGitPanel {
    pub active_repository: Option<Repository>,
    pub status_entries: Vec<VsGitListEntry>,
    pub history_entries: Vec<VsGitListEntry>,
    pub selected_entry: Option<usize>,
    pub staged_count: usize,
    pub unstaged_count: usize,
    pub conflict_count: usize,
    pub commit_entries: Vec<FileHistoryEntry>,
    pub expanded_commits: StringHashSet,
    pub commit_files: StringHashMap<Vec<CommitFile>>,
    pub history_loaded: bool,
    pub history_collapsed: bool,
    /// The reference that the compared files were compared with.
    pub base_ref: Option<String>,
    /// The name that it is shown under.
    pub base_branch: Option<String>,
    pub compared_files: Vec<ComparedFile>,
    pub compared_collapsed: bool,
    pub has_more_commits: bool,
    pub git_worktrees: Vec<Worktree>,
}

/// What can happen to a repository.
#[derive(Debug, Clone, Copy, PartialEq, Eq, Structural)]
pub enum RepositoryEvent {
    StatusesChanged,
    BranchChanged,
    Other,
}

/// What can happen to the repositories of the project.
#[derive(Debug, Clone, Copy, PartialEq, Eq, Structural)]
pub enum GitStoreEvent {
    RepositoryUpdated { event: RepositoryEvent, is_active: bool },
    RepositoryAdded,
    RepositoryRemoved,
    ActiveRepositoryChanged,
    Other,
}

/// A request for `count` commits behind the first `skip`.
#[derive(Debug, Clone, Copy, PartialEq, Eq, Structural)]
pub struct LogRequest {
    pub skip: usize,
    pub count: usize,
}

/// A request for the files that differ from `base_ref`, which is shown as `base_name`.
#[derive(Debug, PartialEq, Eq)]
pub struct DiffRequest {
    pub base_ref: String,
    pub base_name: String,
}

/// What to ask for in order to compare the branch with its base.
#[derive(Debug, PartialEq, Eq)]
pub enum ComparedRequest {
    Nothing,
    Diff(DiffRequest),
    FindDefaultBranch { current_branch: Option<String> },
}

/// What a refresh of the panel sets off.
#[derive(Debug, PartialEq, Eq)]
pub struct ScheduledWork {
    pub debounce_millis: u64,
    pub history: Option<LogRequest>,
    pub compared: ComparedRequest,
    pub worktrees: bool,
}

/// A step of discarding the changes of a file.
#[derive(Debug, PartialEq, Eq)]
pub enum DiscardStep {
    Unstage { repo_path: RepoPath },
    OpenBuffer { project_path: ProjectPath },
    Checkout { revision: &'static str, repo_path: RepoPath },
    Delete { project_path: ProjectPath, trash: bool },
}

/// The file whose diff is to be opened.
#[derive(Debug, PartialEq, Eq)]
pub struct FileDiffTarget {
    pub repo_path: RepoPath,
    pub status: FileStatus,
    pub group: ChangeGroup,
}

/// What opening the diff of a changed file comes to.
#[derive(Debug, PartialEq, Eq)]
pub enum FileDiffAction {
    Nothing,
    /// The diff is open already, in this tab.
    Activate { ix: usize },
    Open { project_path: ProjectPath, diff_kind: VsDiffKind },
}

/// What the diff of a file of a commit is made from.
#[derive(Debug, PartialEq, Eq)]
pub struct CommitDiffRequest {
    pub old_text: String,
    pub new_text: String,
    pub full_path: String,
    pub filename: String,
    pub sha_short: String,
    pub project_path: Option<ProjectPath>,
}

/// What opening the diff of a file of a commit comes to.
#[derive(Debug, PartialEq, Eq)]
pub enum CommitDiffAction {
    Nothing,
    /// The diff is open already, in this tab.
    Activate { ix: usize },
    Open { request: CommitDiffRequest },
}

/// What the texts of a compared file are asked for with, and what their diff is shown as.
#[derive(Debug, PartialEq, Eq)]
pub struct ComparedDiffRequest {
    pub base_ref: String,
    pub path: RepoPath,
    pub full_path: String,
    pub filename: String,
    pub base_display: String,
    pub project_path: Option<ProjectPath>,
}

/// What opening the diff of a compared file comes to.
#[derive(Debug, PartialEq, Eq)]
pub enum ComparedDiffAction {
    Nothing,
    /// The diff is open already, in this tab.
    Activate { ix: usize },
    Load { request: ComparedDiffRequest },
}

/// Whether an event of the repositories calls for a refresh of the panel.
pub open spec fn calls_for_update(event: GitStoreEvent) -> bool {
    match event {
        GitStoreEvent::RepositoryUpdated { event, is_active } => is_active && event
            != RepositoryEvent::Other,
        GitStoreEvent::Other => false,
        _ => true,
    }
}

/// Whether an event of the repositories calls for a refresh of the panel.
pub fn needs_update(event: GitStoreEvent) -> (r: bool)
    ensures
        r == calls_for_update(event),
{
    match event {
        GitStoreEvent::RepositoryUpdated { event, is_active } => is_active && event
            != RepositoryEvent::Other,
        GitStoreEvent::RepositoryAdded => true,
        GitStoreEvent::RepositoryRemoved => true,
        GitStoreEvent::ActiveRepositoryChanged => true,
        GitStoreEvent::Other => false,
    }
}

/// The worktrees that have a branch checked out.
pub open spec fn worktrees_on_branches(worktrees: Seq<Worktree>) -> Seq<Worktree>
    decreases worktrees.len(),
{
    if worktrees.len() == 0 {
        Seq::empty()
    } else {
        let before = worktrees_on_branches(worktrees.drop_last());
        if worktrees.last().ref_name is Some {
            before.push(worktrees.last())
        } else {
            before
        }
    }
}

/// What to ask for in order to compare a branch with its base: its upstream where it has
/// one, else the default branch of the repository.
pub open spec fn is_compared_request(
    repository: Option<Repository>,
    request: ComparedRequest,
) -> bool {
    match repository {
        None => request is Nothing,
        Some(repository) => match repository.branch {
            None => request == (ComparedRequest::FindDefaultBranch { current_branch: None }),
            Some(branch) => match branch.upstream {
                Some(upstream) => request matches ComparedRequest::Diff(diff) && is_diff_request(
                    diff,
                    upstream,
                ),
                None => request == (ComparedRequest::FindDefaultBranch {
                    current_branch: Some(branch.name),
                }),
            },
        },
    }
}

/// `request` asks for what differs from `base_ref` and shows it under its last segment.
pub open spec fn is_diff_request(request: DiffRequest, base_ref: String) -> bool {
    request.base_ref == base_ref && request.base_name@ == last_segment_of(base_ref@)
}

/// The first of the first `n` files whose path is `path`.
pub open spec fn find_commit_file(files: Seq<CommitFile>, path: Seq<char>, n: nat) -> Option<usize>
    decreases n,
{
    if n == 0 {
        None
    } else {
        match find_commit_file(files, path, (n - 1) as nat) {
            Some(i) => Some(i),
            None => if files[n - 1].path.path@ == path { Some((n - 1) as usize) } else { None },
        }
    }
}

/// Whether a tab shows the diff of a changed file.
pub open spec fn shows_file_diff(item: PaneItem, path: ProjectPath, kind: VsDiffKind) -> bool {
    match item {
        PaneItem::FileDiff { project_path: Some(shown), diff_kind } => shown.same(path)
            && diff_kind == kind,
        _ => false,
    }
}

/// The first of the first `n` tabs that shows the diff of a changed file.
pub open spec fn find_file_diff(
    items: Seq<PaneItem>,
    path: ProjectPath,
    kind: VsDiffKind,
    n: nat,
) -> Option<usize>
    decreases n,
{
    if n == 0 {
        None
    } else {
        match find_file_diff(items, path, kind, (n - 1) as nat) {
            Some(i) => Some(i),
            None => if shows_file_diff(items[n - 1], path, kind) {
                Some((n - 1) as usize)
            } else {
                None
            },
        }
    }
}

/// Whether a tab shows the diff of a file of a commit.
pub open spec fn shows_commit_diff(item: PaneItem, path: Seq<char>, sha: Seq<char>) -> bool {
    match item {
        PaneItem::CommitDiff { full_path, sha_short } => full_path@ == path && sha_short@ == sha,
        _ => false,
    }
}

/// The first of the first `n` tabs that shows the diff of a file of a commit.
pub open spec fn find_commit_diff(
    items: Seq<PaneItem>,
    path: Seq<char>,
    sha: Seq<char>,
    n: nat,
) -> Option<usize>
    decreases n,
{
    if n == 0 {
        None
    } else {
        match find_commit_diff(items, path, sha, (n - 1) as nat) {
            Some(i) => Some(i),
            None => if shows_commit_diff(items[n - 1], path, sha) {
                Some((n - 1) as usize)
            } else {
                None
            },
        }
    }
}

/// Which two versions the diff of a file in a group compares.
pub open spec fn diff_kind_of(group: ChangeGroup) -> VsDiffKind {
    match group {
        ChangeGroup::StagedChanges => VsDiffKind::Staged,
        _ => VsDiffKind::Unstaged,
    }
}

/// The steps of discarding the changes of a file: what is staged is unstaged, then a file
/// that HEAD has is checked out from there, and a file that is new is moved to the trash.
pub open spec fn discard_steps(
    repo_path: RepoPath,
    status: FileStatus,
    project_path: Option<ProjectPath>,
) -> Seq<DiscardStep> {
    let unstage = if status.staging.spec_has_staged() {
        seq![DiscardStep::Unstage { repo_path }]
    } else {
        Seq::empty()
    };
    if status.created {
        unstage + match project_path {
            Some(path) => seq![DiscardStep::Delete { project_path: path, trash: true }],
            None => Seq::empty(),
        }
    } else {
        unstage + match project_path {
            Some(path) => seq![DiscardStep::OpenBuffer { project_path: path }],
            None => Seq::empty(),
        } + seq![DiscardStep::Checkout { revision: "HEAD", repo_path }]
    }
}

/// The expanded commits after the one with hash `sha` was clicked.
pub open spec fn toggled(expanded: Set<Seq<char>>, sha: Seq<char>) -> Set<Seq<char>> {
    if expanded.contains(sha) { expanded.remove(sha) } else { expanded.insert(sha) }
}

/// The commits after a page was loaded that was asked for behind the first `skip`.
pub open spec fn commits_after_page(
    loaded: Seq<FileHistoryEntry>,
    skip: nat,
    page: Seq<FileHistoryEntry>,
) -> Seq<FileHistoryEntry> {
    if skip == 0 { page } else { loaded + page }
}

/// Whether a page has all the commits that were asked for, so that more may follow.
pub open spec fn is_full_page(page: Seq<FileHistoryEntry>) -> bool {
    page.len() >= HISTORY_PAGE_SIZE
}

/// The first tab that shows the diff of a changed file.
pub fn find_existing_file_diff(
    items: &Vec<PaneItem>,
    project_path: &ProjectPath,
    diff_kind: VsDiffKind,
) -> (r: Option<usize>)
    ensures
        r == find_file_diff(items@, *project_path, diff_kind, items@.len()),
        r matches Some(ix) ==> ix < items@.len() && items@[ix as int] is FileDiff
            && items@[ix as int]->project_path is Some
            && items@[ix as int]->project_path->0.worktree_id == project_path.worktree_id
            && items@[ix as int]->project_path->0.path@ == project_path.path@
            && items@[ix as int]->diff_kind == diff_kind,
        r is None ==> forall|j: int|
            0 <= j < items@.len() ==> !((#[trigger] items@[j]) is FileDiff
                && items@[j]->project_path is Some && items@[j]->project_path->0.worktree_id
                == project_path.worktree_id && items@[j]->project_path->0.path@
                == project_path.path@ && items@[j]->diff_kind == diff_kind),
{
    proof {
        assert(items@.len() == items.len());
        law_found_tab_shows_the_file(items@, *project_path, diff_kind);
    }
    let mut i: usize = 0;
    let mut found: Option<usize> = None;
    while i < items.len()
        invariant
            i <= items.len(),
            found == find_file_diff(items@, *project_path, diff_kind, i as nat),
        decreases items.len() - i,
    {
        let shows = match &items[i] {
            PaneItem::FileDiff { project_path: Some(shown), diff_kind: kind } => shown.same_as(
                project_path,
            ) && *kind == diff_kind,
            _ => false,
        };
        if found.is_none() && shows {
            found = Some(i);
        }
        i = i + 1;
    }
    found
}

/// The first tab that shows the diff of a file of a commit.
pub fn find_existing_commit_diff(
    items: &Vec<PaneItem>,
    full_path: &String,
    sha_short: &String,
) -> (r: Option<usize>)
    ensures
        r == find_commit_diff(items@, full_path@, sha_short@, items@.len()),
        r matches Some(ix) ==> ix < items@.len() && items@[ix as int] is CommitDiff
            && items@[ix as int]->full_path@ == full_path@ && items@[ix as int]->sha_short@
            == sha_short@,
        r is None ==> forall|j: int|
            0 <= j < items@.len() ==> !((#[trigger] items@[j]) is CommitDiff
                && items@[j]->full_path@ == full_path@ && items@[j]->sha_short@ == sha_short@),
{
    proof {
        assert(items@.len() == items.len());
        law_found_tab_shows_the_commit(items@, full_path@, sha_short@);
    }
    let mut i: usize = 0;
    let mut found: Option<usize> = None;
    while i < items.len()
        invariant
            i <= items.len(),
            found == find_commit_diff(items@, full_path@, sha_short@, i as nat),
        decreases items.len() - i,
    {
        let shows = match &items[i] {
            PaneItem::CommitDiff { full_path: path, sha_short: sha } => *path == *full_path && *sha
                == *sha_short,
            _ => false,
        };
        if found.is_none() && shows {
            found = Some(i);
        }
        i = i + 1;
    }
    found
}

fn find_file<'a>(files: &'a Vec<CommitFile>, path: &RepoPath) -> (r: Option<&'a CommitFile>)
    ensures
        match find_commit_file(files@, path.path@, files@.len()) {
            Some(i) => r == Some(&files@[i as int]),
            None => r is None,
        },
{
    let mut i: usize = 0;
    let mut found: Option<usize> = None;
    while i < files.len()
        invariant
            i <= files.len(),
            found == find_commit_file(files@, path.path@, i as nat),
            found matches Some(j) ==> j < i,
        decreases files.len() - i,
    {
        if found.is_none() && files[i].path.path == path.path {
            found = Some(i);
        }
        i = i + 1;
    }
    match found {
        Some(j) => Some(&files[j]),
        None => None,
    }
}

impl VsGitPanel {
    /// The changed files of the active repository.
    pub open spec fn statuses(self) -> Seq<StatusEntry> {
        match self.active_repository {
            Some(repository) => repository.cached_status@,
            None => Seq::empty(),
        }
    }

    /// The list of commits, with the files of those that are expanded.
    pub open spec fn commit_list(self) -> Seq<VsGitListEntry> {
        history_list(
            self.commit_entries@,
            self.expanded_commits@,
            self.commit_files@,
            self.has_more_commits,
        )
    }

    /// The rows and the counts are those of the rest of the state.
    pub open spec fn rows_current(self) -> bool {
        &&& self.status_entries@ == status_rows(self.statuses())
        &&& self.history_entries@ == if self.active_repository is None {
            Seq::empty()
        } else {
            history_rows(
                self.commit_entries@,
                self.expanded_commits@,
                self.commit_files@,
                self.has_more_commits,
                self.history_collapsed,
            )
        }
        &&& self.conflict_count == members(self.statuses(), ChangeGroup::MergeConflicts).len()
        &&& self.staged_count == members(self.statuses(), ChangeGroup::StagedChanges).len()
        &&& self.unstaged_count == members(self.statuses(), ChangeGroup::Changes).len()
    }

    /// The counts are those of the files that the rows list.
    pub open spec fn well_formed(self) -> bool {
        &&& self.conflict_count == group_paths(
            self.status_entries@,
            ChangeGroup::MergeConflicts,
        ).len()
        &&& self.staged_count == group_paths(
            self.status_entries@,
            ChangeGroup::StagedChanges,
        ).len()
        &&& self.unstaged_count == group_paths(self.status_entries@, ChangeGroup::Changes).len()
    }

    /// Where files are compared, it is known with what.
    pub open spec fn base_known(self) -> bool {
        &&& self.compared_files@.len() > 0 ==> self.base_ref is Some
        &&& match self.base_ref {
            Some(base_ref) => self.base_branch is Some && self.base_branch->0@ == last_segment_of(
                base_ref@,
            ),
            None => self.base_branch is None,
        }
    }

    /// This state with the rows and counts of `other`.
    pub open spec fn with_rows_of(self, other: VsGitPanel) -> VsGitPanel {
        VsGitPanel {
            status_entries: other.status_entries,
            history_entries: other.history_entries,
            staged_count: other.staged_count,
            unstaged_count: other.unstaged_count,
            conflict_count: other.conflict_count,
            ..self
        }
    }

    /// The loaded file with path `path` of the commit with hash `sha`.
    pub open spec fn commit_file(self, sha: Seq<char>, path: Seq<char>) -> Option<CommitFile> {
        if self.commit_files@.contains_key(sha) {
            let files = self.commit_files@[sha]@;
            match find_commit_file(files, path, files.len()) {
                Some(i) => Some(files[i as int]),
                None => None,
            }
        } else {
            None
        }
    }

    /// A panel that has loaded nothing yet.
    pub fn new(active_repository: Option<Repository>) -> (r: VsGitPanel)
        ensures
            r.active_repository == active_repository,
            r.status_entries@.len() == 0,
            r.history_entries@.len() == 0,
            r.selected_entry is None,
            r.staged_count == 0,
            r.unstaged_count == 0,
            r.conflict_count == 0,
            r.commit_entries@.len() == 0,
            r.expanded_commits@ == Set::<Seq<char>>::empty(),
            r.commit_files@ == Map::<Seq<char>, Vec<CommitFile>>::empty(),
            !r.history_loaded,
            !r.history_collapsed,
            r.base_ref is None,
            r.base_branch is None,
            r.compared_files@.len() == 0,
            !r.compared_collapsed,
            r.has_more_commits,
            r.git_worktrees@.len() == 0,
            r.well_formed(),
            r.base_known(),
    {
        VsGitPanel {
            active_repository,
            status_entries: Vec::new(),
            history_entries: Vec::new(),
            selected_entry: None,
            staged_count: 0,
            unstaged_count: 0,
            conflict_count: 0,
            commit_entries: Vec::new(),
            expanded_commits: StringHashSet::new(),
            commit_files: StringHashMap::new(),
            history_loaded: false,
            history_collapsed: false,
            base_ref: None,
            base_branch: None,
            compared_files: Vec::new(),
            compared_collapsed: false,
            has_more_commits: true,
            git_worktrees: Vec::new(),
        }
    }

    /// Takes over what became of the active repository, and says what to load anew.
    pub fn schedule_update(&mut self, active_repository: Option<Repository>) -> (r: ScheduledWork)
        ensures
            *final(self) == (VsGitPanel {
                active_repository,
                git_worktrees: final(self).git_worktrees,
                ..*old(self)
            }),
            active_repository is Some ==> final(self).git_worktrees == old(self).git_worktrees,
            active_repository is None ==> final(self).git_worktrees@.len() == 0,
            r.debounce_millis == UPDATE_DEBOUNCE_MILLIS,
            r.history == if active_repository is Some {
                Some(LogRequest { skip: 0, count: HISTORY_PAGE_SIZE })
            } else {
                None
            },
            is_compared_request(active_repository, r.compared),
            r.worktrees == (active_repository is Some),
            old(self).well_formed() ==> final(self).well_formed(),
            old(self).base_known() ==> final(self).base_known(),
    {
        self.active_repository = active_repository;
        let history = self.load_history(0);
        let compared = self.load_compared_files();
        let worktrees = self.load_worktrees();
        ScheduledWork { debounce_millis: UPDATE_DEBOUNCE_MILLIS, history, compared, worktrees }
    }

    /// Whether to ask for the worktrees. Without a repository there are none.
    pub fn load_worktrees(&mut self) -> (r: bool)
        ensures
            r == (old(self).active_repository is Some),
            *final(self) == (VsGitPanel {
                git_worktrees: final(self).git_worktrees,
                ..*old(self)
            }),
            r ==> final(self).git_worktrees == old(self).git_worktrees,
            !r ==> final(self).git_worktrees@.len() == 0,
            old(self).well_formed() ==> final(self).well_formed(),
            old(self).base_known() ==> final(self).base_known(),
    {
        if self.active_repository.is_none() {
            self.git_worktrees.clear();
            false
        } else {
            true
        }
    }

    /// Keeps the worktrees that have a branch checked out.
    pub fn worktrees_loaded(&mut self, worktrees: Vec<Worktree>)
        ensures
            *final(self) == (VsGitPanel {
                git_worktrees: final(self).git_worktrees,
                ..*old(self)
            }),
            final(self).git_worktrees@ == worktrees_on_branches(worktrees@),
            old(self).well_formed() ==> final(self).well_formed(),
            old(self).base_known() ==> final(self).base_known(),
    {
        let mut kept: Vec<Worktree> = Vec::new();
        let mut i: usize = 0;
        while i < worktrees.len()
            invariant
                i <= worktrees.len(),
                kept@ == worktrees_on_branches(worktrees@.take(i as int)),
            decreases worktrees.len() - i,
        {
            proof {
                assert(worktrees@.take(i + 1).drop_last() =~= worktrees@.take(i as int));
            }
            if worktrees[i].ref_name.is_some() {
                kept.push(
                    Worktree { id: worktrees[i].id, ref_name: worktrees[i].ref_name.clone() },
                );
            }
            i = i + 1;
        }
        assert(worktrees@.take(i as int) =~= worktrees@);
        self.git_worktrees = kept;
    }

    /// What to ask for in order to compare the branch with its base.
    pub fn load_compared_files(&self) -> (r: ComparedRequest)
        ensures
            is_compared_request(self.active_repository, r),
    {
        match &self.active_repository {
            None => ComparedRequest::Nothing,
            Some(repository) => match &repository.branch {
                None => ComparedRequest::FindDefaultBranch { current_branch: None },
                Some(branch) => match &branch.upstream {
                    Some(upstream) => ComparedRequest::Diff(
                        DiffRequest {
                            base_ref: upstream.clone(),
                            base_name: last_segment(upstream),
                        },
                    ),
                    None => ComparedRequest::FindDefaultBranch {
                        current_branch: Some(branch.name.clone()),
                    },
                },
            },
        }
    }

    /// What to ask for once the default branch is known. The default branch itself is not
    /// compared with anything.
    pub fn default_branch_loaded(
        &self,
        current_branch: &Option<String>,
        default_branch: Option<String>,
    ) -> (r: Option<DiffRequest>)
        ensures
            r is Some <==> {
                &&& default_branch is Some
                &&& !(current_branch is Some && current_branch->0@ == last_segment_of(
                    default_branch->0@,
                ))
                &&& self.active_repository is Some
            },
            r matches Some(request) ==> is_diff_request(request, default_branch->0),
    {
        match default_branch {
            None => None,
            Some(default_branch) => {
                let base_name = last_segment(&default_branch);
                let is_default = match current_branch {
                    Some(current) => *current == base_name,
                    None => false,
                };
                if is_default || self.active_repository.is_none() {
                    None
                } else {
                    Some(DiffRequest { base_ref: default_branch, base_name })
                }
            },
        }
    }

    /// Takes over the files that `request` asked for: those that differ from the base branch.
    pub fn compared_files_loaded(&mut self, request: DiffRequest, files: Vec<ComparedFile>)
        ensures
            *final(self) == (VsGitPanel {
                base_ref: Some(request.base_ref),
                base_branch: Some(request.base_name),
                compared_files: files,
                ..*old(self)
            }).with_rows_of(*final(self)),
            final(self).rows_current(),
            final(self).well_formed(),
            is_diff_request(request, request.base_ref) ==> final(self).base_known(),
    {
        self.base_ref = Some(request.base_ref);
        self.base_branch = Some(request.base_name);
        self.compared_files = files;
        self.rebuild_entries();
    }

    /// The request for the commits behind the first `skip`.
    pub fn load_history(&self, skip: usize) -> (r: Option<LogRequest>)
        ensures
            r == if self.active_repository is Some {
                Some(LogRequest { skip, count: HISTORY_PAGE_SIZE })
            } else {
                None
            },
    {
        if self.active_repository.is_none() {
            None
        } else {
            Some(LogRequest { skip, count: HISTORY_PAGE_SIZE })
        }
    }

    /// Takes over a page of commits that was asked for behind the first `skip`: the first
    /// page replaces what was loaded, any other is added to it. A page that is not full is
    /// the last one. Nothing changes where the page could not be loaded.
    pub fn history_page_loaded(&mut self, skip: usize, page: Option<Vec<FileHistoryEntry>>)
        ensures
            match page {
                None => *final(self) == *old(self),
                Some(entries) => {
                    &&& *final(self) == (VsGitPanel {
                        commit_entries: final(self).commit_entries,
                        has_more_commits: is_full_page(entries@),
                        history_loaded: true,
                        ..*old(self)
                    }).with_rows_of(*final(self))
                    &&& final(self).commit_entries@ == commits_after_page(
                        old(self).commit_entries@,
                        skip as nat,
                        entries@,
                    )
                    &&& final(self).rows_current()
                    &&& final(self).well_formed()
                },
            },
            old(self).well_formed() ==> final(self).well_formed(),
            old(self).base_known() ==> final(self).base_known(),
    {
        match page {
            None => {},
            Some(entries) => {
                let mut entries = entries;
                self.has_more_commits = entries.len() >= HISTORY_PAGE_SIZE;
                if skip == 0 {
                    self.commit_entries = entries;
                } else {
                    self.commit_entries.append(&mut entries);
                }
                self.history_loaded = true;
                self.rebuild_entries();
            },
        }
    }

    /// Brings the rows up to date.
    pub fn rebuild_entries(&mut self)
        ensures
            *final(self) == (*old(self)).with_rows_of(*final(self)),
            final(self).rows_current(),
            final(self).well_formed(),
            old(self).base_known() ==> final(self).base_known(),
    {
        self.update_visible_entries();
    }

    /// Expands or collapses a commit. Returns the hash of the commit where its files are
    /// to be loaded first.
    pub fn toggle_commit(&mut self, sha: String) -> (r: Option<String>)
        ensures
            final(self).expanded_commits@ == toggled(old(self).expanded_commits@, sha@),
            ({
                let waits = !old(self).expanded_commits@.contains(sha@)
                    && !old(self).commit_files@.contains_key(sha@);
                let next = VsGitPanel {
                    expanded_commits: final(self).expanded_commits,
                    ..*old(self)
                };
                &&& waits ==> *final(self) == next
                &&& !waits ==> *final(self) == next.with_rows_of(*final(self))
                    && final(self).rows_current() && final(self).well_formed()
                &&& r == if waits && old(self).active_repository is Some {
                    Some(sha)
                } else {
                    None
                }
            }),
            old(self).well_formed() ==> final(self).well_formed(),
            old(self).base_known() ==> final(self).base_known(),
    {
        if self.expanded_commits.contains(&sha) {
            self.expanded_commits.remove(&sha);
            self.rebuild_entries();
            None
        } else {
            self.expanded_commits.insert(sha.clone());
            if self.commit_files.contains_key(&sha) {
                self.rebuild_entries();
                None
            } else {
                self.load_commit_files(sha)
            }
        }
    }

    /// The hash of the commit whose files to ask for.
    pub fn load_commit_files(&self, sha: String) -> (r: Option<String>)
        ensures
            r == if self.active_repository is Some {
                Some(sha)
            } else {
                None
            },
    {
        if self.active_repository.is_none() {
            None
        } else {
            Some(sha)
        }
    }

    /// Takes over the files of a commit.
    pub fn commit_files_loaded(&mut self, sha: String, files: Vec<CommitFile>)
        ensures
            *final(self) == (VsGitPanel {
                commit_files: final(self).commit_files,
                ..*old(self)
            }).with_rows_of(*final(self)),
            final(self).commit_files@ == old(self).commit_files@.insert(sha@, files),
            final(self).rows_current(),
            final(self).well_formed(),
            old(self).base_known() ==> final(self).base_known(),
    {
        self.commit_files.insert(sha, files);
        self.rebuild_entries();
    }

    /// Rebuilds the rows and counts from the rest of the state.
    pub fn update_visible_entries(&mut self)
        ensures
            *final(self) == (*old(self)).with_rows_of(*final(self)),
            final(self).rows_current(),
            final(self).well_formed(),
            old(self).base_known() ==> final(self).base_known(),
    {
        let mut status_entries: Vec<VsGitListEntry> = Vec::new();
        let mut history_entries: Vec<VsGitListEntry> = Vec::new();
        let mut conflict_count: usize = 0;
        let mut staged_count: usize = 0;
        let mut unstaged_count: usize = 0;
        match &self.active_repository {
            None => {},
            Some(repository) => {
                let statuses = &repository.cached_status;
                conflict_count =
                push_section(&mut status_entries, statuses, ChangeGroup::MergeConflicts);
                staged_count =
                push_section(&mut status_entries, statuses, ChangeGroup::StagedChanges);
                unstaged_count = push_section(&mut status_entries, statuses, ChangeGroup::Changes);
                if self.commit_entries.len() > 0 {
                    history_entries.push(VsGitListEntry::HistoryHeader);
                    if !self.history_collapsed {
                        let mut list = build_history_list(
                            &self.commit_entries,
                            &self.expanded_commits,
                            &self.commit_files,
                            self.has_more_commits,
                        );
                        history_entries.append(&mut list);
                    }
                }
            },
        }
        proof {
            let statuses = self.statuses();
            assert(status_entries@ =~= status_rows(statuses));
            assert(history_entries@ =~= if self.active_repository is None {
                Seq::empty()
            } else {
                history_rows(
                    self.commit_entries@,
                    self.expanded_commits@,
                    self.commit_files@,
                    self.has_more_commits,
                    self.history_collapsed,
                )
            });
            law_group_paths_are_the_members(statuses, ChangeGroup::MergeConflicts);
            law_group_paths_are_the_members(statuses, ChangeGroup::StagedChanges);
            law_group_paths_are_the_members(statuses, ChangeGroup::Changes);
        }
        self.status_entries = status_entries;
        self.history_entries = history_entries;
        self.conflict_count = conflict_count;
        self.staged_count = staged_count;
        self.unstaged_count = unstaged_count;
    }

    /// The name of the branch that is checked out.
    pub fn branch_name(&self) -> (r: String)
        ensures
            r@ == self.shown_branch(),
    {
        match &self.active_repository {
            Some(repository) => match &repository.branch {
                Some(branch) => branch.name.clone(),
                None => "No branch".to_string(),
            },
            None => "No branch".to_string(),
        }
    }

    /// The name under which the branch is shown.
    pub open spec fn shown_branch(self) -> Seq<char> {
        match self.active_repository {
            Some(repository) => match repository.branch {
                Some(branch) => branch.name@,
                None => "No branch"@,
            },
            None => "No branch"@,
        }
    }

    /// The name of the active repository.
    pub fn repo_display_name(&self) -> (r: Option<String>)
        ensures
            r == match self.active_repository {
                Some(repository) => Some(repository.display_name),
                None => None,
            },
    {
        match &self.active_repository {
            Some(repository) => Some(repository.display_name.clone()),
            None => None,
        }
    }

    /// How many files the panel lists; a file that is listed twice counts twice.
    pub fn total_changes(&self) -> (r: usize)
        requires
            self.well_formed(),
        ensures
            r == file_count(self.status_entries@),
            r == self.staged_count + self.unstaged_count + self.conflict_count,
    {
        proof {
            lemma_file_count_by_group(self.status_entries@);
            assert(self.status_entries@.len() == self.status_entries.len());
        }
        self.staged_count + self.unstaged_count + self.conflict_count
    }

    /// The paths to stage.
    pub fn stage_file(&self, repo_path: RepoPath) -> (r: Option<Vec<RepoPath>>)
        ensures
            r is Some <==> self.active_repository is Some,
            r matches Some(paths) ==> paths@ == seq![repo_path],
    {
        self.paths_of_one(repo_path)
    }

    /// The paths to unstage.
    pub fn unstage_file(&self, repo_path: RepoPath) -> (r: Option<Vec<RepoPath>>)
        ensures
            r is Some <==> self.active_repository is Some,
            r matches Some(paths) ==> paths@ == seq![repo_path],
    {
        self.paths_of_one(repo_path)
    }

    fn paths_of_one(&self, repo_path: RepoPath) -> (r: Option<Vec<RepoPath>>)
        ensures
            r is Some <==> self.active_repository is Some,
            r matches Some(paths) ==> paths@ == seq![repo_path],
    {
        if self.active_repository.is_none() {
            None
        } else {
            let mut paths: Vec<RepoPath> = Vec::new();
            paths.push(repo_path);
            assert(paths@ =~= seq![repo_path]);
            Some(paths)
        }
    }

    /// The steps of discarding the changes of a file.
    pub fn discard_file(
        &self,
        repo_path: RepoPath,
        status: FileStatus,
        project_path: Option<ProjectPath>,
    ) -> (r: Vec<DiscardStep>)
        ensures
            r@ == if self.active_repository is Some {
                discard_steps(repo_path, status, project_path)
            } else {
                Seq::empty()
            },
    {
        let mut steps: Vec<DiscardStep> = Vec::new();
        if self.active_repository.is_none() {
            return steps;
        }
        if status.staging.has_staged() {
            steps.push(DiscardStep::Unstage { repo_path: repo_path.clone() });
        }
        if status.created {
            match project_path {
                Some(path) => {
                    steps.push(DiscardStep::Delete { project_path: path, trash: true });
                },
                None => {},
            }
        } else {
            match project_path {
                Some(path) => {
                    steps.push(DiscardStep::OpenBuffer { project_path: path });
                },
                None => {},
            }
            steps.push(DiscardStep::Checkout { revision: "HEAD", repo_path });
        }
        assert(steps@ =~= discard_steps(repo_path, status, project_path));
        steps
    }

    /// The paths to stage for a whole group.
    pub fn stage_group(&self, group: ChangeGroup) -> (r: Option<Vec<RepoPath>>)
        ensures
            r is Some <==> self.active_repository is Some && group_paths(
                self.status_entries@,
                group,
            ).len() > 0,
            r matches Some(paths) ==> paths@ == group_paths(self.status_entries@, group),
    {
        self.paths_of_group(group)
    }

    /// The paths to unstage for a whole group.
    pub fn unstage_group(&self, group: ChangeGroup) -> (r: Option<Vec<RepoPath>>)
        ensures
            r is Some <==> self.active_repository is Some && group_paths(
                self.status_entries@,
                group,
            ).len() > 0,
            r matches Some(paths) ==> paths@ == group_paths(self.status_entries@, group),
    {
        self.paths_of_group(group)
    }

    fn paths_of_group(&self, group: ChangeGroup) -> (r: Option<Vec<RepoPath>>)
        ensures
            r is Some <==> self.active_repository is Some && group_paths(
                self.status_entries@,
                group,
            ).len() > 0,
            r matches Some(paths) ==> paths@ == group_paths(self.status_entries@, group),
    {
        let paths = collect_group_paths(&self.status_entries, group);
        if paths.len() == 0 || self.active_repository.is_none() {
            None
        } else {
            Some(paths)
        }
    }

    /// Selects the next row, or the first one where none is selected. Returns the row to
    /// scroll to.
    pub fn select_next(&mut self) -> (r: Option<usize>)
        requires
            old(self).selected_entry != Some(usize::MAX),
        ensures
            old(self).status_entries@.len() == 0 ==> r is None && *final(self) == *old(self),
            old(self).status_entries@.len() > 0 ==> {
                &&& r matches Some(next) && next == match old(self).selected_entry {
                    Some(ix) => if ix + 1 < old(self).status_entries@.len() {
                        ix + 1
                    } else {
                        old(self).status_entries@.len() - 1
                    },
                    None => 0,
                }
                &&& *final(self) == (VsGitPanel { selected_entry: r, ..*old(self) })
            },
            old(self).well_formed() ==> final(self).well_formed(),
            old(self).base_known() ==> final(self).base_known(),
    {
        let len: usize = self.status_entries.len();
        if len == 0 {
            return None;
        }
        let next: usize = match self.selected_entry {
            Some(ix) => if ix + 1 < len {
                ix + 1
            } else {
                len - 1
            },
            None => 0,
        };
        self.selected_entry = Some(next);
        Some(next)
    }

    /// Selects the row before the selected one, or the first one where none is selected.
    /// Returns the row to scroll to.
    pub fn select_previous(&mut self) -> (r: Option<usize>)
        ensures
            old(self).status_entries@.len() == 0 ==> r is None && *final(self) == *old(self),
            old(self).status_entries@.len() > 0 ==> {
                &&& r matches Some(previous) && previous == match old(self).selected_entry {
                    Some(ix) => if ix > 0 { ix - 1 } else { 0 },
                    None => 0,
                }
                &&& *final(self) == (VsGitPanel { selected_entry: r, ..*old(self) })
            },
            old(self).well_formed() ==> final(self).well_formed(),
            old(self).base_known() ==> final(self).base_known(),
    {
        if self.status_entries.len() == 0 {
            return None;
        }
        let previous: usize = match self.selected_entry {
            Some(ix) => if ix > 0 {
                ix - 1
            } else {
                0
            },
            None => 0,
        };
        self.selected_entry = Some(previous);
        Some(previous)
    }

    /// The selected file, whose diff is to be opened.
    pub fn confirm_selection(&self) -> (r: Option<FileDiffTarget>)
        ensures
            r == self.selected_file(),
    {
        match self.selected_entry {
            None => None,
            Some(ix) => {
                if ix < self.status_entries.len() {
                    match &self.status_entries[ix] {
                        VsGitListEntry::FileEntry { repo_path, status, group, .. } => Some(
                            FileDiffTarget {
                                repo_path: repo_path.clone(),
                                status: *status,
                                group: *group,
                            },
                        ),
                        _ => None,
                    }
                } else {
                    None
                }
            },
        }
    }

    /// The file in the selected row, if there is one.
    pub open spec fn selected_file(self) -> Option<FileDiffTarget> {
        match self.selected_entry {
            Some(ix) => if ix < self.status_entries@.len() {
                match self.status_entries@[ix as int] {
                    VsGitListEntry::FileEntry { repo_path, status, group, .. } => Some(
                        FileDiffTarget { repo_path, status, group },
                    ),
                    _ => None,
                }
            } else {
                None
            },
            None => None,
        }
    }

    /// The file to open, where `project_path` is where the active repository has it.
    pub fn open_file(&self, project_path: Option<ProjectPath>) -> (r: Option<ProjectPath>)
        ensures
            r == if self.active_repository is Some { project_path } else { None },
    {
        if self.active_repository.is_none() {
            None
        } else {
            project_path
        }
    }

    /// What opening the diff of a changed file comes to, where `project_path` is where the
    /// active repository has it and `items` are the tabs of the active pane. A deleted file
    /// has no diff, and a diff that is open already is not opened again.
    pub fn open_file_diff(
        &self,
        project_path: Option<ProjectPath>,
        status: FileStatus,
        group: ChangeGroup,
        items: &Vec<PaneItem>,
    ) -> (r: FileDiffAction)
        ensures
            r == if self.active_repository is None || project_path is None || status.deleted {
                FileDiffAction::Nothing
            } else {
                let kind = diff_kind_of(group);
                match find_file_diff(items@, project_path->0, kind, items@.len()) {
                    Some(ix) => FileDiffAction::Activate { ix },
                    None => FileDiffAction::Open {
                        project_path: project_path->0,
                        diff_kind: kind,
                    },
                }
            },
    {
        if self.active_repository.is_none() || status.deleted {
            return FileDiffAction::Nothing;
        }
        match project_path {
            None => FileDiffAction::Nothing,
            Some(project_path) => {
                let diff_kind = match group {
                    ChangeGroup::StagedChanges => VsDiffKind::Staged,
                    _ => VsDiffKind::Unstaged,
                };
                match find_existing_file_diff(items, &project_path, diff_kind) {
                    Some(ix) => FileDiffAction::Activate { ix },
                    None => FileDiffAction::Open { project_path, diff_kind },
                }
            },
        }
    }

    /// What opening the diff of a file of a commit comes to, where `project_path` is where
    /// the active repository has the file and `items` are the tabs of the active pane.
    pub fn open_commit_file_diff(
        &self,
        sha: &String,
        path: &RepoPath,
        project_path: Option<ProjectPath>,
        items: &Vec<PaneItem>,
    ) -> (r: CommitDiffAction)
        requires
            self.commit_file(sha@, path.path@) is Some ==> has_short_sha(sha@),
        ensures
            match self.commit_file(sha@, path.path@) {
                None => r is Nothing,
                Some(file) => match find_commit_diff(
                    items@,
                    path.path@,
                    short_sha_of(sha@),
                    items@.len(),
                ) {
                    Some(ix) => r == (CommitDiffAction::Activate { ix }),
                    None => r matches CommitDiffAction::Open { request } && {
                        &&& request.old_text@ == text_or_empty(file.old_text)
                        &&& request.new_text@ == text_or_empty(file.new_text)
                        &&& request.full_path@ == path.path@
                        &&& request.filename@ == text_or_empty(path.file_name)
                        &&& request.sha_short@ == short_sha_of(sha@)
                        &&& request.project_path == if self.active_repository is Some {
                            project_path
                        } else {
                            None
                        }
                    },
                },
            },
    {
        match self.commit_files.get(sha) {
            None => CommitDiffAction::Nothing,
            Some(files) => match find_file(files, path) {
                None => CommitDiffAction::Nothing,
                Some(file) => {
                    let sha_short = short_sha(sha);
                    match find_existing_commit_diff(items, &path.path, &sha_short) {
                        Some(ix) => CommitDiffAction::Activate { ix },
                        None => CommitDiffAction::Open {
                            request: CommitDiffRequest {
                                old_text: unwrap_or_empty(&file.old_text),
                                new_text: unwrap_or_empty(&file.new_text),
                                full_path: path.path.clone(),
                                filename: unwrap_or_empty(&path.file_name),
                                sha_short,
                                project_path: self.open_file(project_path),
                            },
                        },
                    }
                },
            },
        }
    }

    /// `action` is what opening the diff of `path` against `base_ref` comes to, where
    /// `project_path` is where the active repository has the file and `items` are the tabs of
    /// the active pane.
    pub open spec fn is_compared_action(
        self,
        base_ref: String,
        path: RepoPath,
        project_path: Option<ProjectPath>,
        items: Seq<PaneItem>,
        action: ComparedDiffAction,
    ) -> bool {
        if self.active_repository is None {
            action is Nothing
        } else {
            match find_commit_diff(items, path.path@, last_segment_of(base_ref@), items.len()) {
                Some(ix) => action == (ComparedDiffAction::Activate { ix }),
                None => action matches ComparedDiffAction::Load { request } && {
                    &&& request.base_ref == base_ref
                    &&& request.path == path
                    &&& request.full_path@ == path.path@
                    &&& request.filename@ == text_or_empty(path.file_name)
                    &&& request.base_display@ == last_segment_of(base_ref@)
                    &&& request.project_path == project_path
                },
            }
        }
    }

    /// What opening the diff of a compared file comes to, where `project_path` is where the
    /// active repository has the file and `items` are the tabs of the active pane.
    pub fn open_compared_file_diff(
        &self,
        base_ref: String,
        path: RepoPath,
        project_path: Option<ProjectPath>,
        items: &Vec<PaneItem>,
    ) -> (r: ComparedDiffAction)
        ensures
            self.is_compared_action(base_ref, path, project_path, items@, r),
    {
        if self.active_repository.is_none() {
            return ComparedDiffAction::Nothing;
        }
        let base_display = last_segment(&base_ref);
        match find_existing_commit_diff(items, &path.path, &base_display) {
            Some(ix) => ComparedDiffAction::Activate { ix },
            None => ComparedDiffAction::Load {
                request: ComparedDiffRequest {
                    base_ref,
                    full_path: path.path.clone(),
                    filename: unwrap_or_empty(&path.file_name),
                    base_display,
                    project_path,
                    path,
                },
            },
        }
    }
}

impl ComparedDiffRequest {
    /// The diff to show once the two texts of the file are known.
    pub fn texts_loaded(self, old_text: String, new_text: String) -> (r: CommitDiffRequest)
        ensures
            r == (CommitDiffRequest {
                old_text,
                new_text,
                full_path: self.full_path,
                filename: self.filename,
                sha_short: self.base_display,
                project_path: self.project_path,
            }),
    {
        CommitDiffRequest {
            old_text,
            new_text,
            full_path: self.full_path,
            filename: self.filename,
            sha_short: self.base_display,
            project_path: self.project_path,
        }
    }
}

} // verus!
