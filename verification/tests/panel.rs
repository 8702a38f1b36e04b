use vs_git_ui::entries::{ChangeGroup, VsGitListEntry};
use vs_git_ui::model::{
    Branch, CommitFile, CommitFileStatus, ComparedFile, FileHistoryEntry, FileStatus, PaneItem,
    ProjectPath, RepoPath, Repository, StageStatus, StatusEntry, Worktree,
};
use vs_git_ui::repositories::{all_repositories, is_less, order_by_keys};
use vs_git_ui::vs_file_diff_view::VsDiffKind;
use vs_git_ui::vs_git_panel::{
    find_existing_commit_diff, find_existing_file_diff, needs_update, CommitDiffAction,
    ComparedDiffAction, ComparedRequest, DiffRequest, DiscardStep, FileDiffAction, GitStoreEvent,
    LogRequest, RepositoryEvent, VsGitPanel,
};

fn path(text: &str) -> RepoPath {
    let (parent, name) = match text.rfind('/') {
        Some(at) => (text[..at].to_string(), text[at + 1..].to_string()),
        None => (String::new(), text.to_string()),
    };
    RepoPath { path: text.to_string(), file_name: Some(name), parent: Some(parent) }
}

fn project_path(text: &str) -> ProjectPath {
    ProjectPath { worktree_id: 1, path: text.to_string() }
}

fn status(staging: StageStatus) -> FileStatus {
    FileStatus { conflicted: false, created: false, deleted: false, staging }
}

fn changed(text: &str, staging: StageStatus) -> StatusEntry {
    StatusEntry { repo_path: path(text), status: status(staging) }
}

fn conflicted(text: &str) -> StatusEntry {
    let mut status = status(StageStatus::PartiallyStaged);
    status.conflicted = true;
    StatusEntry { repo_path: path(text), status }
}

fn repository(cached_status: Vec<StatusEntry>) -> Repository {
    Repository {
        display_name: "repo-name".to_string(),
        branch: Some(Branch { name: "topic".to_string(), upstream: None }),
        cached_status,
    }
}

fn panel(cached_status: Vec<StatusEntry>) -> VsGitPanel {
    let mut panel = VsGitPanel::new(Some(repository(cached_status)));
    panel.update_visible_entries();
    panel
}

fn commit(sha: &str) -> FileHistoryEntry {
    FileHistoryEntry {
        sha: sha.to_string(),
        subject: format!("subject of {}", sha),
        author_name: "author".to_string(),
        commit_timestamp: 5,
    }
}

fn commit_file(text: &str) -> CommitFile {
    CommitFile {
        path: path(text),
        status: CommitFileStatus::Modified,
        old_text: Some("old".to_string()),
        new_text: None,
    }
}

fn commits(n: usize) -> Vec<FileHistoryEntry> {
    (0..n).map(|i| commit(&format!("{:040}", i))).collect()
}

fn header(group: ChangeGroup, count: usize) -> VsGitListEntry {
    VsGitListEntry::GroupHeader { group, count }
}

fn row(text: &str, status: FileStatus, staging: StageStatus, group: ChangeGroup) -> VsGitListEntry {
    VsGitListEntry::FileEntry { repo_path: path(text), status, staging, group }
}

fn commit_row(sha: &str, expanded: bool) -> VsGitListEntry {
    VsGitListEntry::CommitEntry {
        sha: sha.to_string(),
        subject: format!("subject of {}", sha),
        author: "author".to_string(),
        timestamp: 5,
        expanded,
    }
}

#[test]
fn files_are_grouped() {
    let panel = panel(vec![
        changed("a", StageStatus::Unstaged),
        changed("b", StageStatus::Staged),
        conflicted("c"),
        changed("d", StageStatus::PartiallyStaged),
    ]);
    let unstaged = status(StageStatus::Unstaged);
    let staged = status(StageStatus::Staged);
    let partly = status(StageStatus::PartiallyStaged);
    let mut in_conflict = partly;
    in_conflict.conflicted = true;
    assert_eq!(
        panel.status_entries,
        vec![
            header(ChangeGroup::MergeConflicts, 1),
            row("c", in_conflict, StageStatus::PartiallyStaged, ChangeGroup::MergeConflicts),
            header(ChangeGroup::StagedChanges, 2),
            row("b", staged, StageStatus::Staged, ChangeGroup::StagedChanges),
            row("d", partly, StageStatus::Staged, ChangeGroup::StagedChanges),
            header(ChangeGroup::Changes, 2),
            row("a", unstaged, StageStatus::Unstaged, ChangeGroup::Changes),
            row("d", partly, StageStatus::Unstaged, ChangeGroup::Changes),
        ]
    );
    assert_eq!((panel.conflict_count, panel.staged_count, panel.unstaged_count), (1, 2, 2));
    assert_eq!(panel.total_changes(), 5);
}

#[test]
fn empty_groups_have_no_header() {
    let panel = panel(vec![changed("b", StageStatus::Staged)]);
    assert_eq!(panel.status_entries.len(), 2);
    assert_eq!(panel.status_entries[0], header(ChangeGroup::StagedChanges, 1));
    assert_eq!(panel.total_changes(), 1);
}

#[test]
fn without_a_repository_nothing_is_listed() {
    let mut panel = panel(vec![changed("b", StageStatus::Staged)]);
    panel.history_page_loaded(0, Some(commits(1)));
    assert_eq!(panel.history_entries.len(), 2);
    panel.active_repository = None;
    panel.rebuild_entries();
    assert!(panel.status_entries.is_empty());
    assert!(panel.history_entries.is_empty());
    assert_eq!(panel.total_changes(), 0);
    assert_eq!(panel.commit_entries.len(), 1);
}

#[test]
fn group_buttons_touch_the_group() {
    let panel = panel(vec![
        changed("a", StageStatus::Unstaged),
        changed("b", StageStatus::Staged),
        changed("d", StageStatus::PartiallyStaged),
    ]);
    assert_eq!(panel.stage_group(ChangeGroup::Changes), Some(vec![path("a"), path("d")]));
    assert_eq!(panel.unstage_group(ChangeGroup::StagedChanges), Some(vec![path("b"), path("d")]));
    assert_eq!(panel.stage_group(ChangeGroup::MergeConflicts), None);
}

#[test]
fn single_files_are_staged_and_unstaged() {
    let mut panel = panel(vec![]);
    assert_eq!(panel.stage_file(path("x")), Some(vec![path("x")]));
    assert_eq!(panel.unstage_file(path("x")), Some(vec![path("x")]));
    panel.active_repository = None;
    assert_eq!(panel.stage_file(path("x")), None);
    assert_eq!(panel.unstage_file(path("x")), None);
    assert_eq!(panel.stage_group(ChangeGroup::Changes), None);
}

#[test]
fn discarding_checks_out_or_deletes() {
    let mut panel = panel(vec![]);
    let steps = panel.discard_file(
        path("a"),
        status(StageStatus::PartiallyStaged),
        Some(project_path("a")),
    );
    assert_eq!(
        steps,
        vec![
            DiscardStep::Unstage { repo_path: path("a") },
            DiscardStep::OpenBuffer { project_path: project_path("a") },
            DiscardStep::Checkout { revision: "HEAD", repo_path: path("a") },
        ]
    );
    let steps = panel.discard_file(path("a"), status(StageStatus::Unstaged), None);
    assert_eq!(steps, vec![DiscardStep::Checkout { revision: "HEAD", repo_path: path("a") }]);
    let mut new_file = status(StageStatus::Unstaged);
    new_file.created = true;
    let steps = panel.discard_file(path("a"), new_file, Some(project_path("a")));
    assert_eq!(steps, vec![DiscardStep::Delete { project_path: project_path("a"), trash: true }]);
    new_file.staging = StageStatus::Staged;
    let steps = panel.discard_file(path("a"), new_file, None);
    assert_eq!(steps, vec![DiscardStep::Unstage { repo_path: path("a") }]);
    panel.active_repository = None;
    assert!(panel.discard_file(path("a"), new_file, None).is_empty());
}

#[test]
fn selection_moves_within_the_rows() {
    let mut panel = panel(vec![changed("a", StageStatus::Unstaged)]);
    assert_eq!(panel.select_next(), Some(0));
    assert_eq!(panel.select_next(), Some(1));
    assert_eq!(panel.select_next(), Some(1));
    assert_eq!(panel.select_previous(), Some(0));
    assert_eq!(panel.select_previous(), Some(0));
    panel.selected_entry = Some(40);
    assert_eq!(panel.select_previous(), Some(39));
    assert_eq!(panel.select_next(), Some(1));
    panel.selected_entry = None;
    assert_eq!(panel.select_previous(), Some(0));
}

#[test]
fn an_empty_list_has_no_selection() {
    let mut panel = panel(vec![]);
    assert_eq!(panel.select_next(), None);
    assert_eq!(panel.select_previous(), None);
    assert_eq!(panel.selected_entry, None);
}

#[test]
fn confirming_opens_the_selected_file() {
    let mut panel = panel(vec![changed("a", StageStatus::Unstaged)]);
    assert!(panel.confirm_selection().is_none());
    panel.select_next();
    assert!(panel.confirm_selection().is_none());
    panel.select_next();
    let target = panel.confirm_selection().unwrap();
    assert_eq!(target.repo_path, path("a"));
    assert_eq!(target.group, ChangeGroup::Changes);
    assert_eq!(target.status, status(StageStatus::Unstaged));
    panel.selected_entry = Some(7);
    assert!(panel.confirm_selection().is_none());
}

#[test]
fn history_is_loaded_page_by_page() {
    let mut panel = panel(vec![]);
    assert_eq!(panel.load_history(0), Some(LogRequest { skip: 0, count: 20 }));
    panel.history_page_loaded(0, Some(commits(20)));
    assert!(panel.has_more_commits && panel.history_loaded);
    assert_eq!(panel.history_entries.len(), 22);
    assert_eq!(panel.history_entries[0], VsGitListEntry::HistoryHeader);
    assert_eq!(panel.history_entries[21], VsGitListEntry::LoadMoreButton);
    assert_eq!(panel.load_more(), Some(LogRequest { skip: 20, count: 20 }));
    panel.history_page_loaded(20, Some(vec![commit("last")]));
    assert!(!panel.has_more_commits);
    assert_eq!(panel.commit_entries.len(), 21);
    assert_eq!(panel.commit_entries[20], commit("last"));
    assert_eq!(panel.history_entries.len(), 22);
    assert_eq!(panel.history_entries[21], commit_row("last", false));
    // The first page starts over.
    panel.history_page_loaded(0, Some(vec![commit("new")]));
    assert_eq!(panel.commit_entries, vec![commit("new")]);
}

#[test]
fn a_failed_page_changes_nothing() {
    let mut panel = panel(vec![]);
    panel.history_page_loaded(0, None);
    assert!(!panel.history_loaded && panel.has_more_commits);
    assert!(panel.commit_entries.is_empty());
    panel.active_repository = None;
    assert_eq!(panel.load_history(0), None);
    assert_eq!(panel.load_more(), None);
}

#[test]
fn a_commit_is_expanded_once_its_files_are_there() {
    let mut panel = panel(vec![]);
    panel.history_page_loaded(0, Some(vec![commit("one"), commit("two")]));
    assert_eq!(panel.toggle_commit("one".to_string()), Some("one".to_string()));
    // Nothing is shown before the files are loaded.
    assert_eq!(panel.history_entries[1], commit_row("one", false));
    panel.commit_files_loaded("one".to_string(), vec![commit_file("x/y"), commit_file("z")]);
    assert_eq!(
        panel.history_entries,
        vec![
            VsGitListEntry::HistoryHeader,
            commit_row("one", true),
            VsGitListEntry::CommitFileEntry {
                sha: "one".to_string(),
                path: path("x/y"),
                status: CommitFileStatus::Modified,
            },
            VsGitListEntry::CommitFileEntry {
                sha: "one".to_string(),
                path: path("z"),
                status: CommitFileStatus::Modified,
            },
            commit_row("two", false),
        ]
    );
    assert_eq!(panel.toggle_commit("one".to_string()), None);
    assert_eq!(panel.history_entries[1], commit_row("one", false));
    assert_eq!(panel.history_entries.len(), 3);
    // The files are not loaded twice.
    assert_eq!(panel.toggle_commit("one".to_string()), None);
    assert_eq!(panel.history_entries.len(), 5);
}

#[test]
fn without_a_repository_no_files_are_asked_for() {
    let mut panel = VsGitPanel::new(None);
    assert_eq!(panel.toggle_commit("one".to_string()), None);
    assert!(panel.expanded_commits.contains("one"));
    assert_eq!(panel.load_commit_files("one".to_string()), None);
}

#[test]
fn a_refresh_loads_everything_anew() {
    let mut panel = VsGitPanel::new(None);
    panel.git_worktrees = vec![Worktree { id: 0, ref_name: None }];
    let work = panel.schedule_update(None);
    assert_eq!(work.history, None);
    assert_eq!(work.compared, ComparedRequest::Nothing);
    assert!(!work.worktrees);
    assert!(panel.git_worktrees.is_empty());
    let work = panel.schedule_update(Some(repository(vec![])));
    assert_eq!(work.debounce_millis, 50);
    assert_eq!(work.history, Some(LogRequest { skip: 0, count: 20 }));
    assert_eq!(
        work.compared,
        ComparedRequest::FindDefaultBranch { current_branch: Some("topic".to_string()) }
    );
    assert!(work.worktrees);
}

#[test]
fn events_that_call_for_a_refresh() {
    let updated = |event: RepositoryEvent, is_active: bool| {
        needs_update(GitStoreEvent::RepositoryUpdated { event, is_active })
    };
    assert!(updated(RepositoryEvent::StatusesChanged, true));
    assert!(updated(RepositoryEvent::BranchChanged, true));
    assert!(!updated(RepositoryEvent::Other, true));
    assert!(!updated(RepositoryEvent::StatusesChanged, false));
    assert!(needs_update(GitStoreEvent::RepositoryAdded));
    assert!(needs_update(GitStoreEvent::RepositoryRemoved));
    assert!(needs_update(GitStoreEvent::ActiveRepositoryChanged));
    assert!(!needs_update(GitStoreEvent::Other));
}

#[test]
fn only_worktrees_on_branches_are_kept() {
    let mut panel = panel(vec![]);
    panel.worktrees_loaded(vec![
        Worktree { id: 0, ref_name: Some("main".to_string()) },
        Worktree { id: 1, ref_name: None },
        Worktree { id: 2, ref_name: Some("topic".to_string()) },
    ]);
    assert_eq!(
        panel.git_worktrees,
        vec![
            Worktree { id: 0, ref_name: Some("main".to_string()) },
            Worktree { id: 2, ref_name: Some("topic".to_string()) },
        ]
    );
}

#[test]
fn the_upstream_is_the_base() {
    let mut panel = panel(vec![]);
    panel.active_repository.as_mut().unwrap().branch = Some(Branch {
        name: "topic".to_string(),
        upstream: Some("refs/remotes/origin/topic".to_string()),
    });
    assert_eq!(
        panel.load_compared_files(),
        ComparedRequest::Diff(DiffRequest {
            base_ref: "refs/remotes/origin/topic".to_string(),
            base_name: "topic".to_string(),
        })
    );
    panel.active_repository.as_mut().unwrap().branch = None;
    assert_eq!(
        panel.load_compared_files(),
        ComparedRequest::FindDefaultBranch { current_branch: None }
    );
}

#[test]
fn the_default_branch_is_the_base_of_other_branches() {
    let mut panel = panel(vec![]);
    let found = panel.default_branch_loaded(
        &Some("topic".to_string()),
        Some("refs/remotes/origin/main".to_string()),
    );
    assert_eq!(
        found,
        Some(DiffRequest {
            base_ref: "refs/remotes/origin/main".to_string(),
            base_name: "main".to_string(),
        })
    );
    let main = Some("origin/main".to_string());
    assert!(panel.default_branch_loaded(&Some("main".to_string()), main.clone()).is_none());
    assert!(panel.default_branch_loaded(&None, None).is_none());
    assert!(panel.default_branch_loaded(&None, main.clone()).is_some());
    panel.active_repository = None;
    assert!(panel.default_branch_loaded(&None, main).is_none());
}

#[test]
fn compared_files_are_taken_over() {
    let mut panel = panel(vec![changed("a", StageStatus::Unstaged)]);
    panel.status_entries.clear();
    let files = vec![ComparedFile { path: path("q"), status: CommitFileStatus::Added }];
    let request = DiffRequest {
        base_ref: "refs/remotes/origin/main".to_string(),
        base_name: "main".to_string(),
    };
    panel.compared_files_loaded(request, files);
    assert_eq!(panel.base_branch, Some("main".to_string()));
    assert_eq!(panel.base_ref, Some("refs/remotes/origin/main".to_string()));
    assert_eq!(panel.compared_files.len(), 1);
    assert_eq!(panel.status_entries.len(), 2);
}

#[test]
fn branch_and_repository_names() {
    let mut panel = panel(vec![]);
    assert_eq!(panel.branch_name(), "topic");
    assert_eq!(panel.repo_display_name(), Some("repo-name".to_string()));
    panel.active_repository.as_mut().unwrap().branch = None;
    assert_eq!(panel.branch_name(), "No branch");
    panel.active_repository = None;
    assert_eq!(panel.branch_name(), "No branch");
    assert_eq!(panel.repo_display_name(), None);
}

fn open_tabs() -> Vec<PaneItem> {
    vec![
        PaneItem::Other,
        PaneItem::FileDiff { project_path: None, diff_kind: VsDiffKind::Unstaged },
        PaneItem::FileDiff {
            project_path: Some(project_path("a")),
            diff_kind: VsDiffKind::Unstaged,
        },
        PaneItem::CommitDiff { full_path: "a".to_string(), sha_short: "0123456".to_string() },
        PaneItem::FileDiff {
            project_path: Some(project_path("a")),
            diff_kind: VsDiffKind::Unstaged,
        },
        PaneItem::CommitDiff { full_path: "a".to_string(), sha_short: "main".to_string() },
    ]
}

#[test]
fn open_diffs_are_found() {
    let tabs = open_tabs();
    assert_eq!(
        find_existing_file_diff(&tabs, &project_path("a"), VsDiffKind::Unstaged),
        Some(2)
    );
    assert_eq!(find_existing_file_diff(&tabs, &project_path("a"), VsDiffKind::Staged), None);
    let elsewhere = ProjectPath { worktree_id: 2, path: "a".to_string() };
    assert_eq!(find_existing_file_diff(&tabs, &elsewhere, VsDiffKind::Unstaged), None);
    let a = "a".to_string();
    assert_eq!(find_existing_commit_diff(&tabs, &a, &"main".to_string()), Some(5));
    assert_eq!(find_existing_commit_diff(&tabs, &a, &"other".to_string()), None);
}

#[test]
fn a_file_diff_is_opened_or_activated() {
    let mut panel = panel(vec![]);
    let tabs = open_tabs();
    let changed = status(StageStatus::PartiallyStaged);
    let a = || Some(project_path("a"));
    assert_eq!(
        panel.open_file_diff(a(), changed, ChangeGroup::Changes, &tabs),
        FileDiffAction::Activate { ix: 2 }
    );
    assert_eq!(
        panel.open_file_diff(a(), changed, ChangeGroup::StagedChanges, &tabs),
        FileDiffAction::Open { project_path: project_path("a"), diff_kind: VsDiffKind::Staged }
    );
    assert_eq!(
        panel.open_file_diff(Some(project_path("b")), changed, ChangeGroup::MergeConflicts, &tabs),
        FileDiffAction::Open { project_path: project_path("b"), diff_kind: VsDiffKind::Unstaged }
    );
    let mut deleted = changed;
    deleted.deleted = true;
    assert_eq!(
        panel.open_file_diff(a(), deleted, ChangeGroup::Changes, &tabs),
        FileDiffAction::Nothing
    );
    assert_eq!(
        panel.open_file_diff(None, changed, ChangeGroup::Changes, &tabs),
        FileDiffAction::Nothing
    );
    assert_eq!(panel.open_file(a()), a());
    panel.active_repository = None;
    assert_eq!(
        panel.open_file_diff(a(), changed, ChangeGroup::Changes, &tabs),
        FileDiffAction::Nothing
    );
    assert_eq!(panel.open_file(a()), None);
}

#[test]
fn a_commit_file_diff_is_opened_or_activated() {
    let mut panel = panel(vec![]);
    let tabs = open_tabs();
    let sha = "0123456789".to_string();
    assert_eq!(
        panel.open_commit_file_diff(&sha, &path("a"), None, &tabs),
        CommitDiffAction::Nothing
    );
    let mut again = commit_file("a");
    again.old_text = Some("not this one".to_string());
    panel.commit_files_loaded("another".to_string(), vec![commit_file("c")]);
    panel.commit_files_loaded(sha.clone(), vec![commit_file("a"), commit_file("x/b"), again]);
    assert_eq!(
        panel.open_commit_file_diff(&sha, &path("a"), None, &tabs),
        CommitDiffAction::Activate { ix: 3 }
    );
    assert_eq!(
        panel.open_commit_file_diff(&sha, &path("c"), None, &tabs),
        CommitDiffAction::Nothing
    );
    let action =
        panel.open_commit_file_diff(&sha, &path("x/b"), Some(project_path("x/b")), &tabs);
    match action {
        CommitDiffAction::Open { request } => {
            assert_eq!(request.old_text, "old");
            assert_eq!(request.new_text, "");
            assert_eq!(request.full_path, "x/b");
            assert_eq!(request.filename, "b");
            assert_eq!(request.sha_short, "0123456");
            assert_eq!(request.project_path, Some(project_path("x/b")));
        }
        _ => panic!("not opened"),
    }
    match panel.open_commit_file_diff(&sha, &path("a"), None, &vec![]) {
        CommitDiffAction::Open { request } => assert_eq!(request.old_text, "old"),
        _ => panic!("not opened"),
    }
}

#[test]
fn a_compared_file_diff_is_opened_or_activated() {
    let mut panel = panel(vec![]);
    let tabs = open_tabs();
    assert_eq!(
        panel.open_compared_file_diff("origin/main".to_string(), path("a"), None, &tabs),
        ComparedDiffAction::Activate { ix: 5 }
    );
    let action = panel.open_compared_file_diff(
        "origin/main".to_string(),
        path("x/b"),
        Some(project_path("x/b")),
        &tabs,
    );
    match action {
        ComparedDiffAction::Load { request } => {
            assert_eq!(request.base_ref, "origin/main");
            assert_eq!(request.path, path("x/b"));
            assert_eq!(request.base_display, "main");
            let diff = request.texts_loaded("o".to_string(), "n".to_string());
            assert_eq!((diff.old_text.as_str(), diff.new_text.as_str()), ("o", "n"));
            assert_eq!(diff.full_path, "x/b");
            assert_eq!(diff.filename, "b");
            assert_eq!(diff.sha_short, "main");
            assert_eq!(diff.project_path, Some(project_path("x/b")));
        }
        _ => panic!("not loaded"),
    }
    panel.active_repository = None;
    assert_eq!(
        panel.open_compared_file_diff("main".to_string(), path("a"), None, &tabs),
        ComparedDiffAction::Nothing
    );
}

#[test]
fn a_click_compares_with_the_listed_base() {
    let mut panel = panel(vec![]);
    let upstream = "refs/remotes/origin/feature/x".to_string();
    panel.active_repository.as_mut().unwrap().branch =
        Some(Branch { name: "topic".to_string(), upstream: Some(upstream.clone()) });
    let request = match panel.load_compared_files() {
        ComparedRequest::Diff(request) => request,
        _ => panic!("no upstream"),
    };
    let files = vec![
        ComparedFile { path: path("q"), status: CommitFileStatus::Added },
        ComparedFile { path: path("x/b"), status: CommitFileStatus::Modified },
    ];
    panel.compared_files_loaded(request, files);
    match panel.click_compared_file(1, Some(project_path("x/b")), &open_tabs()) {
        ComparedDiffAction::Load { request } => {
            assert_eq!(request.base_ref, upstream);
            assert_eq!(request.path, path("x/b"));
            assert_eq!(request.base_display, "x");
            assert_eq!(request.project_path, Some(project_path("x/b")));
        }
        _ => panic!("not loaded"),
    }
    let open = vec![PaneItem::CommitDiff {
        full_path: "q".to_string(),
        sha_short: "x".to_string(),
    }];
    assert_eq!(
        panel.click_compared_file(0, None, &open),
        ComparedDiffAction::Activate { ix: 0 }
    );
    panel.base_ref = None;
    panel.base_branch = None;
    match panel.click_compared_file(0, None, &open) {
        ComparedDiffAction::Load { request } => {
            assert_eq!(request.base_ref, "main");
            assert_eq!(request.base_display, "main");
            assert_eq!(request.path, path("q"));
        }
        _ => panic!("not loaded"),
    }
    panel.active_repository = None;
    assert_eq!(panel.click_compared_file(0, None, &open), ComparedDiffAction::Nothing);
}

#[test]
fn the_pages_make_up_the_log() {
    let log = commits(45);
    let mut panel = panel(vec![]);
    let mut skip = panel.load_history(0).unwrap().skip;
    let mut shown = Vec::new();
    while panel.has_more_commits {
        let page = commits(45).into_iter().skip(skip).take(20).collect();
        panel.history_page_loaded(skip, Some(page));
        shown.push(panel.commit_entries.len());
        skip = panel.load_more().unwrap().skip;
    }
    assert_eq!(shown, vec![20, 40, 45]);
    assert_eq!(panel.commit_entries, log);
}

fn names(texts: &[&str]) -> Vec<String> {
    texts.iter().map(|text| text.to_string()).collect()
}

#[test]
fn repositories_are_ordered_without_regard_to_case() {
    assert_eq!(all_repositories(&names(&["b", "A", "C"])), vec![1, 0, 2]);
    assert_eq!(all_repositories(&names(&["ÉTÉ", "été", "zed"])), vec![2, 0, 1]);
    // Names that differ in case only keep their order.
    assert_eq!(all_repositories(&names(&["ab", "x", "AB", "Ab"])), vec![0, 2, 3, 1]);
    assert!(all_repositories(&vec![]).is_empty());
}

#[test]
fn keys_are_ordered_byte_by_byte() {
    assert_eq!(order_by_keys(&names(&["b", "A", "C", "ab", "a", "b"])), vec![1, 2, 4, 3, 0, 5]);
    assert!(is_less("a", "ab"));
    assert!(!is_less("ab", "a"));
    assert!(!is_less("a", "a"));
    assert!(is_less("", "a"));
    assert!(is_less("z", "é"));
}
