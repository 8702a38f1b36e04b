use std::sync::Arc;
use vs_git_ui::context_server_store::{
    ContextServerId, ContextServerStatus, ContextServerStore, ContextServerStoreState,
    ServerStatusChangedEvent,
};
use vs_git_ui::entries::{ChangeGroup, VsGitListEntry};
use vs_git_ui::model::{
    Branch, Color, CommitFileStatus, ComparedFile, FileHistoryEntry, FileStatus, IconName, Label,
    ProjectPath, RepoPath, Repository, StageStatus, StatusEntry, Worktree,
};
use vs_git_ui::panel_view::{
    commit_file_badge, git_status_color, git_status_letter, menu_item_color, open_worktree,
    render_empty_state, render_group_header, ButtonAction, FileClick, HistoryRowView, PanelLayout,
    StatusRowView, WorktreeOpening,
};
use vs_git_ui::scroll_sync::{EditorEvent, EditorReaction, Side};
use vs_git_ui::settings_pages::{
    render_input_audio_device_dropdown, render_output_audio_device_dropdown,
};
use vs_git_ui::alignment::{DiffHunk, SpacerBlock};
use vs_git_ui::vs_commit_diff_view::VsCommitDiffView;
use vs_git_ui::vs_diff_toolbar::{
    ActiveDiffView, HunkAction, ShownDiff, ToolbarItemLocation, ToolbarView, VsDiffToolbar,
};
use vs_git_ui::vs_file_diff_view::{
    act_as_type, resets_divider, tab_color, tab_icon, ActsAs, Breadcrumbs, DiffSource, ItemType,
    RhsContent, SourceFile, VsDiffKind, VsFileDiffView,
};
use vs_git_ui::vs_git_panel::{DiffRequest, VsGitPanel};
use vs_git_ui::vs_git_panel_settings::{DockPosition, VsGitPanelSettings};

fn path(name: &str, parent: Option<&str>) -> RepoPath {
    let text = match parent {
        Some(parent) => format!("{}/{}", parent, name),
        None => name.to_string(),
    };
    RepoPath {
        path: text,
        file_name: Some(name.to_string()),
        parent: parent.map(|p| p.to_string()),
    }
}

fn plain_status() -> FileStatus {
    FileStatus {
        conflicted: false,
        created: false,
        deleted: false,
        staging: StageStatus::Unstaged,
    }
}

fn panel(cached_status: Vec<StatusEntry>) -> VsGitPanel {
    let mut panel = VsGitPanel::new(Some(Repository {
        display_name: "one".to_string(),
        branch: Some(Branch { name: "main".to_string(), upstream: None }),
        cached_status,
    }));
    panel.update_visible_entries();
    panel
}

fn base(base_ref: &str, base_name: &str) -> DiffRequest {
    DiffRequest { base_ref: base_ref.to_string(), base_name: base_name.to_string() }
}

fn commit(sha: &str) -> FileHistoryEntry {
    FileHistoryEntry {
        sha: sha.to_string(),
        subject: "subject".to_string(),
        author_name: "author".to_string(),
        commit_timestamp: 100,
    }
}

#[test]
fn letters_and_colors_of_files() {
    let mut status = plain_status();
    assert_eq!((git_status_letter(status), git_status_color(status)), ("M", Color::Modified));
    status.deleted = true;
    assert_eq!((git_status_letter(status), git_status_color(status)), ("D", Color::Deleted));
    status.created = true;
    assert_eq!((git_status_letter(status), git_status_color(status)), ("U", Color::Created));
    status.conflicted = true;
    assert_eq!((git_status_letter(status), git_status_color(status)), ("C", Color::Warning));
    assert_eq!(commit_file_badge(CommitFileStatus::Added), ("A", Color::Created));
    assert_eq!(commit_file_badge(CommitFileStatus::Modified), ("M", Color::Modified));
    assert_eq!(commit_file_badge(CommitFileStatus::Deleted), ("D", Color::Deleted));
}

#[test]
fn group_headers() {
    let header = render_group_header(ChangeGroup::StagedChanges, 12);
    assert_eq!(header.label, "Staged Changes");
    assert_eq!(header.count, "(12)");
    let button = header.button.unwrap();
    assert_eq!((button.id, button.tooltip, button.icon), ("unstage-all", "Unstage All", IconName::Dash));
    assert_eq!(button.action, ButtonAction::UnstageGroup { group: ChangeGroup::StagedChanges });
    let header = render_group_header(ChangeGroup::Changes, 1);
    assert_eq!(header.label, "Changes");
    assert_eq!(
        header.button.unwrap().action,
        ButtonAction::StageGroup { group: ChangeGroup::Changes }
    );
    let header = render_group_header(ChangeGroup::MergeConflicts, 1);
    assert_eq!(header.label, "Merge Conflicts");
    assert!(header.button.is_none());
}

#[test]
fn rows_of_changed_files() {
    let mut panel = panel(vec![StatusEntry {
        repo_path: path("file.rs", Some("src")),
        status: plain_status(),
    }]);
    assert!(matches!(panel.render_entries(0), StatusRowView::Header { .. }));
    assert_eq!(panel.click_file_entry(1, ChangeGroup::Changes), FileClick::OpenDiff);
    match panel.render_entries(1) {
        StatusRowView::File { file } => {
            assert_eq!(file.filename, "file.rs");
            assert_eq!(file.parent, Some("src".to_string()));
            assert_eq!((file.letter, file.color), ("M", Color::Modified));
            assert!(file.selected);
            let actions: Vec<ButtonAction> = file.buttons.iter().map(|b| b.action).collect();
            assert_eq!(
                actions,
                vec![ButtonAction::OpenFile, ButtonAction::Stage, ButtonAction::Discard]
            );
        }
        _ => panic!("no file"),
    }
    assert_eq!(panel.click_file_entry(0, ChangeGroup::MergeConflicts), FileClick::OpenFile);
    assert_eq!(panel.selected_entry, Some(0));
}

#[test]
fn buttons_of_staged_and_conflicted_files() {
    let panel = panel(vec![]);
    let nameless = RepoPath { path: String::new(), file_name: None, parent: None };
    let view = panel.render_file_entry(0, &nameless, plain_status(), ChangeGroup::StagedChanges);
    assert_eq!(view.filename, "");
    assert_eq!(view.parent, None);
    assert!(!view.selected);
    let actions: Vec<ButtonAction> = view.buttons.iter().map(|b| b.action).collect();
    assert_eq!(actions, vec![ButtonAction::OpenFile, ButtonAction::Unstage]);
    let top = path("a", Some(""));
    let view = panel.render_file_entry(0, &top, plain_status(), ChangeGroup::MergeConflicts);
    assert_eq!(view.parent, None);
    assert_eq!(view.buttons[1].tooltip, "Stage (Mark as Resolved)");
    assert_eq!(view.buttons[1].action, ButtonAction::Stage);
}

#[test]
fn other_rows_are_empty_in_the_list_of_files() {
    let mut panel = panel(vec![]);
    panel.status_entries.push(VsGitListEntry::LoadMoreButton);
    assert!(matches!(panel.render_entries(0), StatusRowView::Empty));
}

#[test]
fn the_branch_indicator_offers_a_choice_where_there_is_one() {
    let mut panel = panel(vec![]);
    let view = panel.render_branch_indicator(&vec!["one".to_string()]);
    assert!(view.repositories.is_none() && view.worktrees.is_none());
    assert_eq!(view.branch, Some("main".to_string()));
    panel.git_worktrees = vec![
        Worktree { id: 3, ref_name: Some("main".to_string()) },
        Worktree { id: 5, ref_name: None },
    ];
    let view = panel.render_branch_indicator(&vec!["one".to_string(), "two".to_string()]);
    assert!(view.branch.is_none());
    let repositories = view.repositories.unwrap();
    assert_eq!(repositories.label, "one");
    let active: Vec<bool> = repositories.items.iter().map(|item| item.is_active).collect();
    assert_eq!(active, vec![true, false]);
    assert_eq!(repositories.items[1].name, "two");
    assert_eq!(repositories.items[1].id, 1);
    let worktrees = view.worktrees.unwrap();
    assert_eq!(worktrees.label, "main");
    assert_eq!((worktrees.items[0].id, worktrees.items[0].is_active), (3, true));
    assert_eq!((worktrees.items[1].id, worktrees.items[1].is_active), (5, false));
    assert_eq!(worktrees.items[1].name, "(detached)");
    assert_eq!(menu_item_color(true), Color::Accent);
    assert_eq!(menu_item_color(false), Color::Default);
}

#[test]
fn without_a_repository_the_indicator_has_stand_ins() {
    let panel = VsGitPanel::new(None);
    let view = panel.render_branch_indicator(&vec!["repo".to_string(), "x".to_string()]);
    let menu = view.repositories.unwrap();
    assert_eq!(menu.label, "repo");
    assert!(menu.items[0].is_active);
    assert_eq!(view.branch, Some("No branch".to_string()));
}

#[test]
fn worktrees_open_here_or_on_the_host() {
    assert_eq!(open_worktree(true, false), WorktreeOpening::LocalWindow);
    assert_eq!(open_worktree(true, true), WorktreeOpening::LocalWindow);
    assert_eq!(open_worktree(false, true), WorktreeOpening::RemoteWindow);
    assert_eq!(open_worktree(false, false), WorktreeOpening::Nowhere);
}

#[test]
fn the_compared_section() {
    let mut panel = panel(vec![]);
    assert_eq!(panel.render_compared_section().header.title, "Compared to ?");
    assert_eq!(panel.compared_base(), "main");
    panel.compared_files_loaded(
        base("origin/develop", "develop"),
        vec![ComparedFile { path: path("a", Some("x")), status: CommitFileStatus::Deleted }],
    );
    let section = panel.render_compared_section();
    assert_eq!(section.header.title, "Compared to develop");
    assert_eq!(section.header.count, "(1 files)");
    assert_eq!(section.header.chevron, IconName::ChevronDown);
    assert_eq!(section.files.len(), 1);
    assert_eq!(section.files[0].filename, "a");
    assert_eq!(section.files[0].letter, "D");
    assert_eq!(panel.compared_base(), "origin/develop");
    panel.toggle_compared();
    let section = panel.render_compared_section();
    assert_eq!(section.header.chevron, IconName::ChevronRight);
    assert_eq!(section.header.count, "(1 files)");
    assert!(section.files.is_empty());
}

#[test]
fn the_history_section() {
    let mut panel = panel(vec![]);
    panel.history_page_loaded(0, Some(vec![commit("0123456789"), commit("abc")]));
    let header = panel.render_history_header_standalone();
    assert_eq!(header.title, "Commit History");
    assert_eq!(header.count, "(2)");
    assert_eq!(header.chevron, IconName::ChevronDown);
    panel.toggle_history();
    assert_eq!(panel.history_entries, vec![VsGitListEntry::HistoryHeader]);
    assert_eq!(panel.render_history_header_standalone().chevron, IconName::ChevronRight);
    // The list itself does not depend on whether the section is collapsed.
    let list = panel.render_history_list();
    assert_eq!(list.len(), 2);
    panel.toggle_history();
    assert_eq!(panel.history_entries.len(), 3);
    assert_eq!(panel.history_entries[1..], list[..]);
}

#[test]
fn rows_of_the_history() {
    let mut panel = panel(vec![]);
    panel.history_page_loaded(0, Some(vec![commit("0123456789")]));
    assert_eq!(panel.click_commit_entry(0, "0123456789".to_string()), Some("0123456789".to_string()));
    assert_eq!(panel.selected_entry, Some(0));
    let list = panel.render_history_list();
    match panel.render_history_row(0, &list[0], 100 + 7200) {
        HistoryRowView::Commit { commit } => {
            assert_eq!(commit.subject, "subject");
            assert_eq!(commit.author, "author");
            assert_eq!(commit.sha_short, "0123456");
            assert_eq!(commit.time, "2h ago");
            assert_eq!(commit.chevron, IconName::ChevronDown);
            assert!(commit.selected);
        }
        _ => panic!("no commit"),
    }
    let file = VsGitListEntry::CommitFileEntry {
        sha: "0123456789".to_string(),
        path: path("a", None),
        status: CommitFileStatus::Added,
    };
    panel.click_commit_file_entry(4);
    match panel.render_history_row(4, &file, 0) {
        HistoryRowView::File { file } => {
            assert_eq!((file.letter, file.color), ("A", Color::Created));
            assert!(file.selected);
        }
        _ => panic!("no file"),
    }
    assert_eq!(
        panel.render_history_row(1, &VsGitListEntry::LoadMoreButton, 0),
        HistoryRowView::LoadMore { label: Label { text: "Load More...", color: Color::Accent } }
    );
    assert_eq!(
        panel.render_history_row(1, &VsGitListEntry::HistoryHeader, 0),
        HistoryRowView::Empty
    );
}

#[test]
fn the_parts_of_the_panel() {
    let mut panel = panel(vec![]);
    assert_eq!(
        panel.render(),
        PanelLayout {
            entries: false,
            empty_state: true,
            bottom_section: false,
            resizable_bottom: false,
            compared: false,
            history_header: false,
            history_list: false,
        }
    );
    assert_eq!(render_empty_state().text, "No changes");
    panel.history_page_loaded(0, Some(vec![commit("a")]));
    let layout = panel.render();
    assert!(layout.bottom_section && layout.resizable_bottom && layout.history_list);
    assert!(!layout.empty_state && !layout.compared);
    panel.toggle_history();
    let layout = panel.render();
    assert!(layout.bottom_section && layout.history_header);
    assert!(!layout.resizable_bottom && !layout.history_list);
    panel.compared_files_loaded(
        base("origin/main", "main"),
        vec![ComparedFile { path: path("a", None), status: CommitFileStatus::Added }],
    );
    let layout = panel.render();
    assert!(layout.resizable_bottom && layout.compared && !layout.history_list);
}

#[test]
fn facts_about_the_panel() {
    let mut panel = panel(vec![]);
    assert_eq!(VsGitPanel::persistent_name(), "VsGitPanel");
    assert_eq!(VsGitPanel::panel_key(), "VsGitPanel");
    assert_eq!(panel.position(), DockPosition::Left);
    assert!(panel.position_is_valid(DockPosition::Left));
    assert!(panel.position_is_valid(DockPosition::Right));
    assert!(!panel.position_is_valid(DockPosition::Bottom));
    assert_eq!(panel.default_size(), 360);
    assert_eq!(VsGitPanelSettings::default(), VsGitPanelSettings::get_global());
    assert_eq!(panel.icon(), Some(IconName::GitBranch));
    assert_eq!(panel.icon_tooltip(), Some("Source Control"));
    assert!(!panel.starts_open());
    assert_eq!(panel.activation_priority(), 4);
    assert_eq!(panel.icon_label(), None);
    let mut partly = plain_status();
    partly.staging = StageStatus::PartiallyStaged;
    panel.active_repository.as_mut().unwrap().cached_status =
        vec![StatusEntry { repo_path: path("a", None), status: partly }];
    panel.update_visible_entries();
    assert_eq!(panel.icon_label(), Some("2".to_string()));
}

fn source_file(name: Option<&str>) -> SourceFile {
    SourceFile {
        file_name: name.map(|n| n.to_string()),
        path: ProjectPath { worktree_id: 4, path: "src/a.rs".to_string() },
    }
}

#[test]
fn an_unstaged_diff_compares_the_working_copy_with_the_index() {
    let (view, editors) = VsFileDiffView::new(
        Some(source_file(Some("a.rs"))),
        "head".to_string(),
        "index".to_string(),
        VsDiffKind::Unstaged,
    );
    assert_eq!(editors.lhs_text, "index");
    assert_eq!(editors.rhs, RhsContent::WorkingCopy);
    assert_eq!(editors.source, DiffSource::UnstagedDiff);
    assert!(editors.follows_index);
    assert_eq!(view.tab_content_text(), "a.rs (Working Tree)");
    assert_eq!(view.tab_tooltip_text(), Some("a.rs".to_string()));
    assert_eq!(view.breadcrumbs(), Breadcrumbs::OfRhsEditor);
    assert_eq!(view.telemetry_event_text(), Some("VS File Diff Opened"));
}

#[test]
fn a_staged_diff_compares_the_index_with_head() {
    let (view, editors) = VsFileDiffView::new(
        Some(source_file(None)),
        "head".to_string(),
        "index".to_string(),
        VsDiffKind::Staged,
    );
    assert_eq!(editors.lhs_text, "head");
    assert_eq!(editors.rhs, RhsContent::ReadOnlyText { text: "index".to_string() });
    assert_eq!(editors.source, DiffSource::AgainstText { base_text: "head".to_string() });
    assert!(!editors.follows_index);
    assert_eq!(view.tab_content_text(), "untitled (Index)");
    assert_eq!(view.breadcrumbs(), Breadcrumbs::Text { text: "src/a.rs".to_string() });
    let (view, _) =
        VsFileDiffView::new(None, String::new(), String::new(), VsDiffKind::Staged);
    assert_eq!(view.tab_content_text(), "untitled (Index)");
    assert_eq!(view.tab_tooltip_text(), None);
    assert_eq!(view.breadcrumbs(), Breadcrumbs::Nothing);
    assert_eq!(view.project_path, None);
}

#[test]
fn scrolling_is_copied_without_an_echo() {
    let (mut view, _) =
        VsFileDiffView::new(None, String::new(), String::new(), VsDiffKind::Unstaged);
    let by_hand = EditorEvent::ScrollPositionChanged { local: true };
    let from_elsewhere = EditorEvent::ScrollPositionChanged { local: false };
    assert_eq!(view.on_editor_event(Side::Lhs, from_elsewhere), EditorReaction::Nothing);
    assert_eq!(
        view.on_editor_event(Side::Rhs, by_hand),
        EditorReaction::CopyScroll { from: Side::Rhs }
    );
    assert_eq!(view.on_editor_event(Side::Lhs, by_hand), EditorReaction::Nothing);
    view.scroll.finish();
    assert_eq!(
        view.on_editor_event(Side::Lhs, by_hand),
        EditorReaction::CopyScroll { from: Side::Lhs }
    );
}

#[test]
fn edits_on_the_right_refresh_the_blocks() {
    let (mut view, _) =
        VsFileDiffView::new(None, String::new(), String::new(), VsDiffKind::Unstaged);
    assert_eq!(
        view.on_editor_event(Side::Rhs, EditorEvent::DirtyChanged),
        EditorReaction::RefreshBlocks
    );
    assert_eq!(view.on_editor_event(Side::Rhs, EditorEvent::Saved), EditorReaction::RefreshBlocks);
    assert_eq!(view.on_editor_event(Side::Rhs, EditorEvent::Other), EditorReaction::Nothing);
    assert_eq!(view.on_editor_event(Side::Lhs, EditorEvent::Saved), EditorReaction::Nothing);
}

#[test]
fn the_left_side_follows_the_index_where_it_shows_it() {
    let (mut view, _) =
        VsFileDiffView::new(None, String::new(), String::new(), VsDiffKind::Unstaged);
    view.blocks_inserted(vec![3], vec![4]);
    let reload = view.on_index_changed("new index".to_string(), (0u8, 12u8)).unwrap();
    assert_eq!(reload.lhs_text, "new index");
    assert_eq!(reload.lhs_scroll, (0, 12));
    assert!(view.scroll.syncing);
    let by_hand = EditorEvent::ScrollPositionChanged { local: true };
    assert_eq!(view.on_editor_event(Side::Lhs, by_hand), EditorReaction::Nothing);
    let added = vec![DiffHunk { row_start: 1, row_end: 2, base_start: 2, base_end: 2 }];
    let refresh = view.index_reloaded(&added, Some("a\nb\n"), 2);
    assert!(!view.scroll.syncing);
    assert_eq!((refresh.remove_rhs, refresh.remove_lhs), (vec![3], vec![4]));
    assert_eq!(refresh.insert_lhs, vec![SpacerBlock { below_row: Some(0), height: 1 }]);
    assert!(refresh.insert_rhs.is_empty());
    assert_eq!(view.hunk_icons.len(), 1);
    let (mut view, _) =
        VsFileDiffView::new(None, String::new(), String::new(), VsDiffKind::Staged);
    assert_eq!(view.on_index_changed("new index".to_string(), 5u8), None);
    assert!(!view.scroll.syncing);
}

#[test]
fn a_refresh_replaces_all_blocks() {
    let (mut view, _) =
        VsFileDiffView::new(None, String::new(), String::new(), VsDiffKind::Unstaged);
    let added = vec![DiffHunk { row_start: 2, row_end: 4, base_start: 4, base_end: 4 }];
    let base = "a\nb\nc\n";
    let refresh = view.refresh_alignment_blocks(&added, Some(base), 3);
    assert!(refresh.remove_lhs.is_empty() && refresh.remove_rhs.is_empty());
    assert_eq!(refresh.insert_lhs, vec![SpacerBlock { below_row: Some(1), height: 2 }]);
    assert!(refresh.insert_rhs.is_empty());
    assert_eq!(view.hunk_icons.len(), 1);
    view.blocks_inserted(vec![], vec![17]);
    let refresh = view.refresh_alignment_blocks(&vec![], Some(base), 3);
    assert_eq!(refresh.remove_lhs, vec![17]);
    assert!(refresh.insert_lhs.is_empty());
    assert!(view.hunk_icons.is_empty());
    assert!(view.lhs_block_ids.is_empty());
}

#[test]
fn tabs_and_dividers() {
    assert_eq!(tab_icon(), (IconName::Diff, Color::Muted));
    assert_eq!(tab_color(true), Color::Default);
    assert_eq!(tab_color(false), Color::Muted);
    assert_eq!(act_as_type(ItemType::Itself), ActsAs::Itself);
    assert_eq!(act_as_type(ItemType::Editor), ActsAs::RhsEditor);
    assert_eq!(act_as_type(ItemType::Other), ActsAs::Nothing);
    assert!(!resets_divider(1));
    assert!(resets_divider(2));
}

#[test]
fn a_commit_diff_compares_the_old_text_with_the_new() {
    let (mut view, editors) = VsCommitDiffView::new(
        "old".to_string(),
        "new".to_string(),
        "src/a.rs".to_string(),
        "a.rs".to_string(),
        "0123456".to_string(),
        None,
    );
    assert_eq!(editors.lhs_text, "old");
    assert_eq!(editors.rhs_text, "new");
    assert_eq!(editors.base_text, "old");
    assert_eq!(view.tab_content_text(), "a.rs (0123456)");
    assert_eq!(view.breadcrumbs(), "src/a.rs @ 0123456");
    assert_eq!(view.telemetry_event_text(), Some("VS Commit Diff Opened"));
    let by_hand = EditorEvent::ScrollPositionChanged { local: true };
    assert_eq!(
        view.on_editor_event(Side::Lhs, by_hand),
        EditorReaction::CopyScroll { from: Side::Lhs }
    );
    assert_eq!(view.on_editor_event(Side::Rhs, by_hand), EditorReaction::Nothing);
    assert_eq!(view.on_editor_event(Side::Rhs, EditorEvent::Saved), EditorReaction::Nothing);
}

#[test]
fn the_toolbar_is_shown_above_diffs() {
    let mut toolbar: VsDiffToolbar<u8, char, &str> = VsDiffToolbar::new("workspace");
    assert_eq!(toolbar.workspace, "workspace");
    let shown = || Some(ShownDiff { project_path: None });
    assert_eq!(toolbar.render(shown()), ToolbarView::Empty);
    assert!(!toolbar.dispatch_action(HunkAction::GoToHunk, true).focus_rhs);
    assert_eq!(toolbar.set_active_pane_item(None, None), ToolbarItemLocation::Hidden);
    assert_eq!(toolbar.set_active_pane_item(Some(7), Some('c')), ToolbarItemLocation::PrimaryRight);
    assert!(matches!(toolbar.active_view, Some(ActiveDiffView::File(7))));
    assert_eq!(toolbar.set_active_pane_item(None, Some('c')), ToolbarItemLocation::PrimaryRight);
    assert!(matches!(toolbar.active_view, Some(ActiveDiffView::Commit('c'))));
    assert_eq!(toolbar.render(None), ToolbarView::Empty);
    let path = ProjectPath { worktree_id: 1, path: "a".to_string() };
    match toolbar.render(Some(ShownDiff { project_path: Some(path.clone()) })) {
        ToolbarView::Buttons { open_file, previous, next } => {
            assert_eq!(open_file, Some(path));
            assert_eq!((previous.id, previous.icon), ("prev-hunk", IconName::ArrowUp));
            assert_eq!(previous.tooltip, "Go to previous change");
            assert_eq!(previous.action, HunkAction::GoToPreviousHunk);
            assert_eq!((next.id, next.icon), ("next-hunk", IconName::ArrowDown));
            assert_eq!(next.action, HunkAction::GoToHunk);
        }
        _ => panic!("no buttons"),
    }
    let dispatch = toolbar.dispatch_action(HunkAction::GoToPreviousHunk, true);
    assert!(dispatch.focus_rhs);
    assert_eq!(dispatch.action, HunkAction::GoToPreviousHunk);
    assert!(!toolbar.dispatch_action(HunkAction::GoToHunk, false).focus_rhs);
}

#[test]
fn a_local_store_is_shared() {
    let mut store: ContextServerStore<&str, &str, u8, u16, bool> =
        ContextServerStore::local(1, Some(2), false, true);
    assert!(store.server_ids().is_empty());
    ContextServerStore::<&str, &str, u8, u16, bool>::init_headless(&"session");
    assert!(matches!(store.state, ContextServerStoreState::Local { downstream_client: None }));
    store.shared(9, "client");
    assert!(matches!(
        store.state,
        ContextServerStoreState::Local { downstream_client: Some((9, "client")) }
    ));
    assert_eq!((store.worktree_store, store.project, store.registry), (1, Some(2), true));
}

#[test]
fn a_remote_store_stays_with_its_host() {
    let mut store: ContextServerStore<&str, &str, u8, u16, bool> =
        ContextServerStore::remote(5, "host", 1, None, false);
    store.shared(9, "client");
    assert!(matches!(
        store.state,
        ContextServerStoreState::Remote { project_id: 5, upstream_client: "host" }
    ));
    assert!(store.server_ids().is_empty());
}

#[test]
fn server_ids_are_written_as_they_are() {
    let id = ContextServerId(Arc::from("my-server"));
    assert_eq!(id.to_string(), "my-server");
    let event = ServerStatusChangedEvent {
        server_id: id.clone(),
        status: ContextServerStatus::Stopped,
    };
    assert_eq!(event.server_id, id);
    assert_eq!(event.status, ContextServerStatus::Stopped);
}

#[test]
fn there_are_no_audio_devices() {
    let label = Label { text: "Audio devices not available", color: Color::Muted };
    assert_eq!(render_input_audio_device_dropdown(), label);
    assert_eq!(render_output_audio_device_dropdown(), label);
}
