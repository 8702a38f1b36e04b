//! What the panel and the diff views show and do, field by field.

use crate::alignment::{lhs_spacers, rhs_spacers, DiffHunk, RowRange};
use crate::entries::{ChangeGroup, VsGitListEntry};
use crate::model::{text_or_empty, Color, CommitFileStatus, ComparedFile, FileHistoryEntry,
    FileStatus, IconName, PaneItem, ProjectPath, RepoPath, Repository, StageStatus, Worktree};
use crate::panel_laws::{law_find_commit_diff, law_find_commit_file, law_find_file_diff};
use crate::panel_view::{chevron_of, commit_badge, file_buttons, group_button, is_commit_file_row,
    is_group_header, is_repository_menu, is_worktree_menu, shown_parent, status_color,
    status_letter, ButtonAction, CommitEntryView, CommitFileView, FileEntryView, GroupHeaderView,
    Menu};
use crate::scroll_sync::{first_scroll_row, EditorEvent, EditorReaction, ScrollSync, Side};
use crate::settings_pages::no_audio_devices;
use crate::text::{decimal_of, has_short_sha, last_segment_of, relative_time_of, short_sha_of};
use crate::vs_diff_toolbar::{next_button, previous_button, HunkAction};
use crate::vs_file_diff_view::{acting_as, hunks_at, icons_of, is_editors_of, shown_file_name,
    ActsAs, BlockRefresh, DiffEditors, DiffSource, ItemType, RhsContent, SourceFile, VsDiffKind,
    VsFileDiffView};
use crate::vs_git_panel::{calls_for_update, commits_after_page, diff_kind_of, discard_steps,
    find_commit_diff, find_commit_file, find_file_diff, is_compared_request, is_diff_request, is_full_page,
    worktrees_on_branches, ComparedDiffAction, ComparedRequest, DiffRequest, DiscardStep,
    FileDiffTarget, GitStoreEvent, RepositoryEvent, VsGitPanel};
use vstd::prelude::*;

verus! {

/// A changed file is shown as conflicted, else as created, else as deleted, else as modified,
/// by its letter and by its color.
pub proof fn law_letter_and_color_of_a_change(status: FileStatus)
    ensures
        status.conflicted ==> status_letter(status) == "C" && status_color(status)
            == Color::Warning,
        !status.conflicted && status.created ==> status_letter(status) == "U" && status_color(
            status,
        ) == Color::Created,
        !status.conflicted && !status.created && status.deleted ==> status_letter(status) == "D"
            && status_color(status) == Color::Deleted,
        !status.conflicted && !status.created && !status.deleted ==> status_letter(status) == "M"
            && status_color(status) == Color::Modified,
{
}

/// Some of a change is staged exactly where all or a part of it is; a file is listed twice
/// exactly where it is a part.
pub proof fn law_something_is_staged(staging: StageStatus)
    ensures
        staging.spec_has_staged() <==> staging != StageStatus::Unstaged,
{
}

/// What a row says of a file name: the name itself, or nothing where there is none.
pub proof fn law_file_name_shown(name: Option<String>)
    ensures
        name is Some ==> text_or_empty(name) == name->0@,
        name is None ==> text_or_empty(name).len() == 0,
{
}

/// The directory of a file is shown unless it is the top directory or there is none.
pub proof fn law_directory_shown(path: RepoPath)
    ensures
        shown_parent(path) is Some <==> path.parent is Some && path.parent->0@.len() > 0,
        shown_parent(path) is Some ==> shown_parent(path) == path.parent,
{
}

/// The row of a file of a commit shows its name and directory, and "A", "M" or "D" in the
/// color of that exactly where the commit added, modified or deleted the file.
pub proof fn law_commit_file_row(
    view: CommitFileView,
    path: RepoPath,
    status: CommitFileStatus,
    selected: bool,
)
    requires
        is_commit_file_row(view, path, status, selected),
    ensures
        view.filename@ == text_or_empty(path.file_name),
        view.parent == shown_parent(path),
        view.selected == selected,
        view.letter@ == "A"@ <==> status == CommitFileStatus::Added,
        view.letter@ == "M"@ <==> status == CommitFileStatus::Modified,
        view.letter@ == "D"@ <==> status == CommitFileStatus::Deleted,
        view.color == Color::Created <==> status == CommitFileStatus::Added,
        view.color == Color::Modified <==> status == CommitFileStatus::Modified,
        view.color == Color::Deleted <==> status == CommitFileStatus::Deleted,
{
    reveal_strlit("A");
    reveal_strlit("M");
    reveal_strlit("D");
    assert("A"@[0] != "M"@[0] && "A"@[0] != "D"@[0] && "M"@[0] != "D"@[0]);
    assert((view.letter, view.color) == commit_badge(status));
}

/// The row of a compared file says what happened to that very file: "A" where the branch
/// added it, "M" where it modified it and "D" where it deleted it, each in its color. It is
/// never shown as selected.
pub proof fn law_compared_row_says_what_happened(view: CommitFileView, file: ComparedFile)
    requires
        VsGitPanel::is_compared_row(view, file),
    ensures
        view.filename@ == text_or_empty(file.path.file_name),
        view.parent == shown_parent(file.path),
        !view.selected,
        view.letter@ == "A"@ <==> file.status == CommitFileStatus::Added,
        view.letter@ == "M"@ <==> file.status == CommitFileStatus::Modified,
        view.letter@ == "D"@ <==> file.status == CommitFileStatus::Deleted,
        view.color == Color::Created <==> file.status == CommitFileStatus::Added,
        view.color == Color::Modified <==> file.status == CommitFileStatus::Modified,
        view.color == Color::Deleted <==> file.status == CommitFileStatus::Deleted,
{
    law_commit_file_row(view, file.path, file.status, false);
}

/// A section or commit that is collapsed points to the right, one that is not points down.
pub proof fn law_chevrons(collapsed: bool)
    ensures
        chevron_of(collapsed) == IconName::ChevronRight <==> collapsed,
        chevron_of(collapsed) == IconName::ChevronDown <==> !collapsed,
{
}

/// The header of a group shows its title and the number of its files in brackets. That of the
/// staged changes unstages them all, that of the changes stages them all, and that of the
/// conflicts has no button.
pub proof fn law_group_header(view: GroupHeaderView, group: ChangeGroup, count: usize)
    requires
        is_group_header(view, group, count),
    ensures
        view.count@ == "("@ + decimal_of(count as nat) + ")"@,
        group == ChangeGroup::MergeConflicts ==> view.label == "Merge Conflicts" && view.button is None,
        group == ChangeGroup::StagedChanges ==> {
            &&& view.label == "Staged Changes"
            &&& view.button is Some
            &&& view.button->0.action == (ButtonAction::UnstageGroup {
                group: ChangeGroup::StagedChanges,
            })
            &&& view.button->0.id == "unstage-all"
            &&& view.button->0.icon == IconName::Dash
            &&& view.button->0.tooltip == "Unstage All"
        },
        group == ChangeGroup::Changes ==> {
            &&& view.label == "Changes"
            &&& view.button is Some
            &&& view.button->0.action == (ButtonAction::StageGroup { group: ChangeGroup::Changes })
            &&& view.button->0.id == "stage-all"
            &&& view.button->0.icon == IconName::Plus
            &&& view.button->0.tooltip == "Stage All"
        },
{
    assert(view.button == group_button(group));
}

/// The buttons beside a file: to open it, and then to unstage it among the staged changes, to
/// stage or discard it among the changes, and to stage it as resolved among the conflicts.
pub proof fn law_file_buttons(group: ChangeGroup)
    ensures
        ({
            let buttons = file_buttons(group);
            &&& buttons.len() == if group == ChangeGroup::Changes { 3nat } else { 2nat }
            &&& buttons[0].action == ButtonAction::OpenFile && buttons[0].icon == IconName::File
            &&& buttons[0].id == "open-file" && buttons[0].tooltip == "Open File"
            &&& group == ChangeGroup::StagedChanges ==> {
                &&& buttons[1].action == ButtonAction::Unstage && buttons[1].icon == IconName::Dash
                &&& buttons[1].id == "unstage" && buttons[1].tooltip == "Unstage"
            }
            &&& group == ChangeGroup::Changes ==> {
                &&& buttons[1].action == ButtonAction::Stage && buttons[1].icon == IconName::Plus
                &&& buttons[1].id == "stage" && buttons[1].tooltip == "Stage"
                &&& buttons[2].action == ButtonAction::Discard && buttons[2].icon == IconName::Undo
                &&& buttons[2].id == "discard" && buttons[2].tooltip == "Discard Changes"
            }
            &&& group == ChangeGroup::MergeConflicts ==> {
                &&& buttons[1].action == ButtonAction::Stage && buttons[1].icon == IconName::Plus
                &&& buttons[1].id == "stage-conflict" && buttons[1].tooltip
                    == "Stage (Mark as Resolved)"
            }
        }),
{
}

/// The row of a changed file shows its own name, directory, letter and color, is marked where
/// it is the selected row, and has the buttons of its group.
pub proof fn law_file_entry(
    panel: VsGitPanel,
    view: FileEntryView,
    ix: usize,
    path: RepoPath,
    status: FileStatus,
    group: ChangeGroup,
)
    requires
        panel.is_file_entry(view, ix, path, status, group),
    ensures
        view.filename@ == text_or_empty(path.file_name),
        view.parent == shown_parent(path),
        view.selected <==> panel.selected_entry == Some(ix),
        view.buttons@ == file_buttons(group),
        status.conflicted <==> view.color == Color::Warning,
        !status.conflicted && status.created <==> view.color == Color::Created,
        !status.conflicted && !status.created && status.deleted <==> view.color == Color::Deleted,
        status.conflicted ==> view.letter == "C",
        !status.conflicted && status.created ==> view.letter == "U",
        !status.conflicted && !status.created && status.deleted ==> view.letter == "D",
        !status.conflicted && !status.created && !status.deleted ==> view.letter == "M",
{
}

/// The row of a commit shows its own subject, author, abbreviated hash and age, points down
/// where it is expanded, and is marked where it is the selected row.
pub proof fn law_commit_entry(
    panel: VsGitPanel,
    view: CommitEntryView,
    ix: usize,
    entry: VsGitListEntry,
    now: i64,
)
    requires
        panel.is_commit_entry(view, ix, entry, now),
    ensures
        entry is CommitEntry,
        view.subject == entry->subject,
        view.author == entry->author,
        view.sha_short@ == short_sha_of(entry->CommitEntry_sha@),
        view.time@ == relative_time_of(now - entry->timestamp),
        view.chevron == IconName::ChevronDown <==> entry->expanded,
        view.chevron == IconName::ChevronRight <==> !entry->expanded,
        view.selected <==> panel.selected_entry == Some(ix),
{
}

/// Every row can be shown but that of a commit whose hash cannot be abbreviated or whose age
/// cannot be counted.
pub proof fn law_rows_that_can_be_shown(entry: VsGitListEntry, now: i64)
    ensures
        !(entry is CommitEntry) ==> VsGitPanel::row_can_be_shown(entry, now),
        entry is CommitEntry ==> (VsGitPanel::row_can_be_shown(entry, now) <==> has_short_sha(
            entry->CommitEntry_sha@,
        ) && i64::MIN <= now - entry->timestamp <= i64::MAX),
{
}

/// The menu of repositories offers each under its own name and place, and marks those that
/// have the name of the active one.
pub proof fn law_repository_menu(menu: Menu, names: Seq<String>, active: Seq<char>, i: int)
    requires
        is_repository_menu(menu, names, active),
        0 <= i < names.len(),
    ensures
        menu.label@ == active,
        menu.items@.len() == names.len(),
        menu.items@[i].id == i,
        menu.items@[i].name == names[i],
        menu.items@[i].is_active <==> names[i]@ == active,
{
}

/// The menu of worktrees offers each under its own branch and place, and marks that on the
/// branch that is shown.
pub proof fn law_worktree_menu(menu: Menu, worktrees: Seq<Worktree>, branch: Seq<char>, i: int)
    requires
        is_worktree_menu(menu, worktrees, branch),
        0 <= i < worktrees.len(),
    ensures
        menu.label@ == branch,
        menu.items@.len() == worktrees.len(),
        menu.items@[i].id == worktrees[i].id,
        menu.items@[i].is_active <==> menu.items@[i].name@ == branch,
        worktrees[i].ref_name is Some ==> menu.items@[i].name@ == worktrees[i].ref_name->0@,
        worktrees[i].ref_name is None ==> menu.items@[i].name@ == "(detached)"@,
{
}

/// The branch and the repository are shown under their names, and without one under a text
/// that stands in for it.
pub proof fn law_shown_names(panel: VsGitPanel)
    ensures
        panel.active_repository is None ==> panel.shown_branch() == "No branch"@
            && panel.shown_repository() == "repo"@,
        panel.active_repository matches Some(repository) ==> {
            &&& panel.shown_repository() == repository.display_name@
            &&& repository.branch is None ==> panel.shown_branch() == "No branch"@
            &&& repository.branch is Some ==> panel.shown_branch() == repository.branch->0.name@
        },
{
}

/// Each part of the panel is shown where there is something to show in it.
pub proof fn law_parts_of_the_panel(panel: VsGitPanel)
    ensures
        ({
            let layout = panel.layout();
            let files = panel.status_entries@.len() > 0;
            let history = panel.history_entries@.len() > 0;
            let compared = panel.compared_files@.len() > 0;
            &&& layout.entries <==> files
            &&& layout.compared <==> compared
            &&& layout.history_header <==> history
            &&& layout.history_list <==> history && !panel.history_collapsed
            &&& layout.bottom_section <==> history || compared
            &&& layout.empty_state <==> !files && !history && !compared
            &&& layout.resizable_bottom <==> compared || (history && !panel.history_collapsed)
        }),
{
}

/// To confirm opens the file of the selected row, with the path, status and group of that
/// very row, and nothing where no file row is selected.
pub proof fn law_confirming(panel: VsGitPanel, ix: usize)
    ensures
        panel.selected_entry is None ==> panel.selected_file() is None,
        panel.selected_entry == Some(ix) && (ix >= panel.status_entries@.len()
            || !(panel.status_entries@[ix as int] is FileEntry)) ==> panel.selected_file() is None,
        panel.selected_entry == Some(ix) && ix < panel.status_entries@.len()
            && panel.status_entries@[ix as int] is FileEntry ==> panel.selected_file() == Some(
            FileDiffTarget {
                repo_path: panel.status_entries@[ix as int]->repo_path,
                status: panel.status_entries@[ix as int]->FileEntry_status,
                group: panel.status_entries@[ix as int]->FileEntry_group,
            },
        ),
{
}

/// The panel is refreshed on a change of the files or the branch of the active repository,
/// and whenever a repository comes, goes or becomes active, and on nothing else.
pub proof fn law_refreshing(event: RepositoryEvent, is_active: bool)
    ensures
        calls_for_update(GitStoreEvent::RepositoryUpdated { event, is_active }) <==> is_active && (
        event == RepositoryEvent::StatusesChanged || event == RepositoryEvent::BranchChanged),
        calls_for_update(GitStoreEvent::RepositoryAdded),
        calls_for_update(GitStoreEvent::RepositoryRemoved),
        calls_for_update(GitStoreEvent::ActiveRepositoryChanged),
        !calls_for_update(GitStoreEvent::Other),
{
}

/// The worktrees that are kept are those that are on a branch, as they are and in order.
pub proof fn law_worktrees_kept(worktrees: Seq<Worktree>)
    ensures
        worktrees_on_branches(worktrees) == worktrees.filter(
            |worktree: Worktree| worktree.ref_name is Some,
        ),
    decreases worktrees.len(),
{
    reveal(Seq::filter);
    if worktrees.len() > 0 {
        law_worktrees_kept(worktrees.drop_last());
    }
}

/// A branch with an upstream is compared with that very reference, and any other with the
/// default branch, once that is found. Without a repository nothing is asked for.
pub proof fn law_base_of_a_branch(repository: Option<Repository>, request: ComparedRequest)
    requires
        is_compared_request(repository, request),
    ensures
        repository is None <==> request is Nothing,
        repository is Some && repository->0.branch is Some && repository->0.branch->0.upstream is Some
            ==> request is Diff && request->Diff_0.base_ref
            == repository->0.branch->0.upstream->0 && request->Diff_0.base_name@
            == last_segment_of(repository->0.branch->0.upstream->0@),
        repository is Some && repository->0.branch is Some && repository->0.branch->0.upstream is None
            ==> request is FindDefaultBranch && request->current_branch == Some(
            repository->0.branch->0.name,
        ),
        repository is Some && repository->0.branch is None ==> request is FindDefaultBranch
            && request->current_branch is None,
{
}

/// A request for what differs from a reference asks for that very reference, and names it by
/// its last segment.
pub proof fn law_diff_request(request: DiffRequest, base_ref: String)
    ensures
        is_diff_request(request, base_ref) <==> request.base_ref == base_ref
            && request.base_name@ == last_segment_of(base_ref@),
{
}

/// Where the tab of a file's diff is found, it is one with the same worktree, the same whole
/// path and the same kind of diff, and no tab before it is; where none is found, there is no
/// such tab.
pub proof fn law_found_tab_shows_the_file(
    items: Seq<PaneItem>,
    path: ProjectPath,
    kind: VsDiffKind,
)
    requires
        items.len() <= usize::MAX,
    ensures
        match find_file_diff(items, path, kind, items.len()) {
            Some(ix) => {
                &&& ix < items.len()
                &&& items[ix as int] is FileDiff
                &&& items[ix as int]->project_path is Some
                &&& items[ix as int]->project_path->0.worktree_id == path.worktree_id
                &&& items[ix as int]->project_path->0.path@ == path.path@
                &&& items[ix as int]->diff_kind == kind
                &&& forall|j: int|
                    0 <= j < ix ==> !((#[trigger] items[j]) is FileDiff
                        && items[j]->project_path is Some
                        && items[j]->project_path->0.worktree_id == path.worktree_id
                        && items[j]->project_path->0.path@ == path.path@ && items[j]->diff_kind
                        == kind)
            },
            None => forall|j: int|
                0 <= j < items.len() ==> !((#[trigger] items[j]) is FileDiff
                    && items[j]->project_path is Some && items[j]->project_path->0.worktree_id
                    == path.worktree_id && items[j]->project_path->0.path@ == path.path@
                    && items[j]->diff_kind == kind),
        },
{
    law_find_file_diff(items, path, kind, items.len());
}

/// Where the tab of the diff of a file of a commit is found, it is one with the same whole
/// path and the same abbreviated hash, and no tab before it is; where none is found, there
/// is no such tab.
pub proof fn law_found_tab_shows_the_commit(
    items: Seq<PaneItem>,
    path: Seq<char>,
    sha: Seq<char>,
)
    requires
        items.len() <= usize::MAX,
    ensures
        match find_commit_diff(items, path, sha, items.len()) {
            Some(ix) => {
                &&& ix < items.len()
                &&& items[ix as int] is CommitDiff
                &&& items[ix as int]->full_path@ == path
                &&& items[ix as int]->sha_short@ == sha
                &&& forall|j: int|
                    0 <= j < ix ==> !((#[trigger] items[j]) is CommitDiff && items[j]->full_path@
                        == path && items[j]->sha_short@ == sha)
            },
            None => forall|j: int|
                0 <= j < items.len() ==> !((#[trigger] items[j]) is CommitDiff
                    && items[j]->full_path@ == path && items[j]->sha_short@ == sha),
        },
{
    law_find_commit_diff(items, path, sha, items.len());
}

/// The diff of a file of a commit is made from the first of the loaded files of that commit
/// that has that whole path.
pub proof fn law_file_of_a_commit(panel: VsGitPanel, sha: Seq<char>, path: Seq<char>)
    requires
        panel.commit_files@.contains_key(sha) ==> panel.commit_files@[sha]@.len() <= usize::MAX,
    ensures
        !panel.commit_files@.contains_key(sha) ==> panel.commit_file(sha, path) is None,
        panel.commit_files@.contains_key(sha) ==> match panel.commit_file(sha, path) {
            Some(file) => exists|i: int|
                {
                    &&& 0 <= i < panel.commit_files@[sha]@.len()
                    &&& #[trigger] panel.commit_files@[sha]@[i] == file
                    &&& file.path.path@ == path
                    &&& forall|j: int|
                        0 <= j < i ==> (#[trigger] panel.commit_files@[sha]@[j]).path.path@ != path
                },
            None => forall|i: int|
                0 <= i < panel.commit_files@[sha]@.len() ==> (
                #[trigger] panel.commit_files@[sha]@[i]).path.path@ != path,
        },
{
    if panel.commit_files@.contains_key(sha) {
        let files = panel.commit_files@[sha]@;
        law_find_commit_file(files, path, files.len());
        match find_commit_file(files, path, files.len()) {
            Some(i) => {
                assert(panel.commit_files@[sha]@[i as int] == panel.commit_file(sha, path)->0);
            },
            None => {},
        }
    }
}

/// Two paths name the same file exactly where the worktree and the whole path are the same.
pub proof fn law_same_file(a: ProjectPath, b: ProjectPath)
    ensures
        a.same(b) <==> a.worktree_id == b.worktree_id && a.path@ == b.path@,
{
}

/// The staged changes are shown against HEAD, any other change against the index.
pub proof fn law_kind_of_diff(group: ChangeGroup)
    ensures
        diff_kind_of(group) == VsDiffKind::Staged <==> group == ChangeGroup::StagedChanges,
{
}

/// The diff of the working copy has the index on the left, the working copy on the right,
/// and follows the index. The diff of the index has HEAD on the left, the index on the right,
/// and compares with HEAD.
pub proof fn law_sides_of_a_diff(
    editors: DiffEditors,
    head_text: String,
    index_text: String,
    diff_kind: VsDiffKind,
)
    requires
        is_editors_of(editors, head_text, index_text, diff_kind),
    ensures
        diff_kind == VsDiffKind::Unstaged ==> editors.lhs_text == index_text
            && editors.rhs is WorkingCopy && editors.source is UnstagedDiff
            && editors.follows_index,
        diff_kind == VsDiffKind::Staged ==> editors.lhs_text == head_text && editors.rhs == (
        RhsContent::ReadOnlyText { text: index_text }) && editors.source == (
        DiffSource::AgainstText { base_text: head_text }) && !editors.follows_index,
{
}

/// Discarding a change: what is staged is unstaged first. A new file is then moved to the
/// trash, where the project has it; any other is opened, where the project has it, and checked
/// out from HEAD. Nothing else is done, and to no other file.
pub proof fn law_discarding_step_by_step(
    repo_path: RepoPath,
    status: FileStatus,
    project_path: Option<ProjectPath>,
)
    ensures
        ({
            let steps = discard_steps(repo_path, status, project_path);
            let first: int = if status.staging == StageStatus::Unstaged { 0 } else { 1 };
            let known: int = if project_path is Some { 1 } else { 0 };
            &&& first == 1 ==> steps[0] == (DiscardStep::Unstage { repo_path })
            &&& status.created ==> steps.len() == first + known
            &&& status.created && known == 1 ==> steps[first] == (DiscardStep::Delete {
                project_path: project_path->0,
                trash: true,
            })
            &&& !status.created ==> steps.len() == first + known + 1
            &&& !status.created && known == 1 ==> steps[first] == (DiscardStep::OpenBuffer {
                project_path: project_path->0,
            })
            &&& !status.created ==> steps[first + known] == (DiscardStep::Checkout {
                revision: "HEAD",
                repo_path,
            })
        }),
{
}

/// A page that has twenty commits or more may be followed by another. The first page stands
/// alone, and any other behind what was loaded, commit for commit.
pub proof fn law_page_by_page(
    loaded: Seq<FileHistoryEntry>,
    skip: nat,
    page: Seq<FileHistoryEntry>,
)
    ensures
        is_full_page(page) <==> page.len() >= 20,
        commits_after_page(loaded, 0, page) == page,
        skip > 0 ==> commits_after_page(loaded, skip, page).len() == loaded.len() + page.len(),
        skip > 0 ==> commits_after_page(loaded, skip, page).take(loaded.len() as int) == loaded,
        skip > 0 ==> commits_after_page(loaded, skip, page).skip(loaded.len() as int) == page,
{
    assert((loaded + page).take(loaded.len() as int) =~= loaded);
    assert((loaded + page).skip(loaded.len() as int) =~= page);
}

/// What opening the diff of a file against a reference comes to: nothing without a
/// repository, the tab of that file and that reference where it is open, and else a request
/// for the texts of that very file against that very reference.
pub proof fn law_comparing_a_file(
    panel: VsGitPanel,
    base_ref: String,
    path: RepoPath,
    project_path: Option<ProjectPath>,
    items: Seq<PaneItem>,
    action: ComparedDiffAction,
)
    requires
        items.len() <= usize::MAX,
        panel.is_compared_action(base_ref, path, project_path, items, action),
    ensures
        action is Nothing <==> panel.active_repository is None,
        action matches ComparedDiffAction::Activate { ix } ==> ix < items.len()
            && items[ix as int] is CommitDiff && items[ix as int]->full_path@ == path.path@
            && items[ix as int]->sha_short@ == last_segment_of(base_ref@),
        action matches ComparedDiffAction::Load { request } ==> {
            &&& request.base_ref == base_ref
            &&& request.path == path
            &&& request.full_path@ == path.path@
            &&& request.filename@ == text_or_empty(path.file_name)
            &&& request.base_display@ == last_segment_of(base_ref@)
            &&& request.project_path == project_path
            &&& forall|j: int|
                0 <= j < items.len() ==> !((#[trigger] items[j]) is CommitDiff
                    && items[j]->full_path@ == path.path@ && items[j]->sha_short@
                    == last_segment_of(base_ref@))
        },
{
    law_found_tab_shows_the_commit(items, path.path@, last_segment_of(base_ref@));
}

/// A compared file is compared with the reference that the files were listed against, and
/// with `main` where none is known.
pub proof fn law_base_of_a_click(panel: VsGitPanel, base: String)
    requires
        panel.is_compared_base(base),
    ensures
        panel.base_ref is Some ==> base == panel.base_ref->0,
        panel.base_ref is None ==> base@ == "main"@,
{
}

/// A click on a compared file asks for the texts of that very file against the reference that
/// the files were listed against, and against `main` where none is known.
pub proof fn law_click_asks_for_the_file(
    panel: VsGitPanel,
    ix: int,
    project_path: Option<ProjectPath>,
    items: Seq<PaneItem>,
    action: ComparedDiffAction,
)
    requires
        items.len() <= usize::MAX,
        0 <= ix < panel.compared_files@.len(),
        panel.is_compared_click(ix, project_path, items, action),
    ensures
        action is Nothing <==> panel.active_repository is None,
        action matches ComparedDiffAction::Load { request } ==> {
            &&& request.path == panel.compared_files@[ix].path
            &&& request.full_path@ == panel.compared_files@[ix].path.path@
            &&& request.project_path == project_path
            &&& panel.base_ref is Some ==> request.base_ref == panel.base_ref->0
            &&& panel.base_ref is None ==> request.base_ref@ == "main"@
        },
        action matches ComparedDiffAction::Activate { ix: tab } ==> tab < items.len()
            && items[tab as int] is CommitDiff && items[tab as int]->full_path@
            == panel.compared_files@[ix].path.path@,
{
    let base = choose|base: String| #[trigger]
        panel.is_compared_base(base) && panel.is_compared_action(
            base,
            panel.compared_files@[ix].path,
            project_path,
            items,
            action,
        );
    law_comparing_a_file(
        panel,
        base,
        panel.compared_files@[ix].path,
        project_path,
        items,
        action,
    );
}

/// Where files are compared it is known with what, and the name that is shown is the last
/// segment of that.
pub proof fn law_base_is_known(panel: VsGitPanel)
    requires
        panel.base_known(),
    ensures
        panel.compared_files@.len() > 0 ==> panel.base_ref is Some,
        panel.base_ref is Some <==> panel.base_branch is Some,
        panel.base_ref is Some ==> panel.base_branch->0@ == last_segment_of(panel.base_ref->0@),
{
}

/// The hunks that a click on the stage icon at a row stages are all those that reach from at
/// most that row to at least that row, and at the top also those that begin there; each once
/// and in order.
pub proof fn law_hunks_to_stage(hunks: Seq<RowRange>, row: u32, n: nat)
    requires
        n <= hunks.len() <= usize::MAX,
    ensures
        forall|i: int|
            0 <= i < n ==> (hunks_at(hunks, row, n).contains(i as usize) <==> (
            (#[trigger] hunks[i]).start <= row && row <= hunks[i].end) || (row == 0
                && hunks[i].start == 0)),
        forall|j: int|
            0 <= j < hunks_at(hunks, row, n).len() ==> #[trigger] hunks_at(hunks, row, n)[j] < n,
        forall|i: int, j: int|
            0 <= i < j < hunks_at(hunks, row, n).len() ==> #[trigger] hunks_at(hunks, row, n)[i]
                < #[trigger] hunks_at(hunks, row, n)[j],
    decreases n,
{
    if n > 0 {
        law_hunks_to_stage(hunks, row, (n - 1) as nat);
        let before = hunks_at(hunks, row, (n - 1) as nat);
        let now = hunks_at(hunks, row, n);
        let here = (hunks[n - 1].start <= row && row <= hunks[n - 1].end) || (row == 0
            && hunks[n - 1].start == 0);
        assert(now == if here { before.push((n - 1) as usize) } else { before });
        assert forall|i: int| 0 <= i < n implies (now.contains(i as usize) <==> ((
        #[trigger] hunks[i]).start <= row && row <= hunks[i].end) || (row == 0 && hunks[i].start
            == 0)) by {
            if i == n - 1 {
                if here {
                    assert(now[before.len() as int] == i as usize);
                } else if before.contains(i as usize) {
                    let j = choose|j: int| 0 <= j < before.len() && before[j] == i as usize;
                    assert(before[j] < n - 1);
                }
            } else {
                if before.contains(i as usize) {
                    let j = choose|j: int| 0 <= j < before.len() && before[j] == i as usize;
                    assert(now[j] == before[j]);
                }
                if now.contains(i as usize) {
                    let j = choose|j: int| 0 <= j < now.len() && now[j] == i as usize;
                    assert(j < before.len());
                    assert(before[j] == i as usize);
                }
            }
        }
        assert forall|j: int| 0 <= j < now.len() implies #[trigger] now[j] < n by {
            if j < before.len() {
                assert(now[j] == before[j]);
            }
        }
        assert forall|i: int, j: int| 0 <= i < j < now.len() implies #[trigger] now[i]
            < #[trigger] now[j] by {
            assert(now[i] == before[i]);
            if j < before.len() {
                assert(now[j] == before[j]);
            }
        }
    }
}

/// The title of the tab of a diff is the name of the file, and behind it the version on the
/// right side; a file without a name is untitled.
pub proof fn law_tab_title(view: VsFileDiffView)
    ensures
        view.file_path is Some && view.diff_kind == VsDiffKind::Staged ==> view.tab_title()
            == view.file_path->0@ + " "@ + "(Index)"@,
        view.file_path is Some && view.diff_kind == VsDiffKind::Unstaged ==> view.tab_title()
            == view.file_path->0@ + " "@ + "(Working Tree)"@,
        view.file_path is None && view.diff_kind == VsDiffKind::Staged ==> view.tab_title()
            == "untitled"@ + " "@ + "(Index)"@,
        view.file_path is None && view.diff_kind == VsDiffKind::Unstaged ==> view.tab_title()
            == "untitled"@ + " "@ + "(Working Tree)"@,
{
}

/// A file is shown under its own name, and as untitled where it has none.
pub proof fn law_file_title(file: SourceFile)
    ensures
        file.file_name is Some ==> shown_file_name(file) == file.file_name->0@,
        file.file_name is None ==> shown_file_name(file) == "untitled"@,
{
}

/// A diff acts as itself and as the editor of its right side.
pub proof fn law_acting(item_type: ItemType)
    ensures
        acting_as(item_type) == ActsAs::Itself <==> item_type == ItemType::Itself,
        acting_as(item_type) == ActsAs::RhsEditor <==> item_type == ItemType::Editor,
{
}

/// To note a change of the index stops the copying of scroll positions where the left side
/// shows the index; to load it anew starts the copying again. Nothing else changes.
pub proof fn law_index_steps(view: VsFileDiffView)
    ensures
        view.index_noted() == (VsFileDiffView {
            scroll: ScrollSync { syncing: view.index_noted().scroll.syncing },
            ..view
        }),
        view.diff_kind == VsDiffKind::Unstaged ==> view.index_noted().scroll.syncing,
        view.diff_kind == VsDiffKind::Staged ==> view.index_noted().scroll == view.scroll,
        view.index_applied() == (VsFileDiffView { scroll: ScrollSync { syncing: false }, ..view }),
{
}

/// To compute the blocks anew takes out all blocks that were put in, forgets them, sets the
/// icons anew and changes nothing else.
pub proof fn law_refreshing_blocks(
    view: VsFileDiffView,
    after: VsFileDiffView,
    refresh: BlockRefresh,
    hunks: Seq<DiffHunk>,
    base: Seq<u8>,
    lhs_max_row: u32,
)
    requires
        view.is_refreshed(after, refresh, hunks, base, lhs_max_row),
    ensures
        refresh.remove_rhs@ == view.rhs_block_ids@,
        refresh.remove_lhs@ == view.lhs_block_ids@,
        refresh.insert_rhs@ == rhs_spacers(base, hunks, hunks.len() as int),
        refresh.insert_lhs@ == lhs_spacers(
            base,
            hunks,
            lhs_max_row,
            hunks.len() as int,
        ),
        after.rhs_block_ids@.len() == 0,
        after.lhs_block_ids@.len() == 0,
        after.hunk_icons@ == icons_of(base, hunks, view.diff_kind),
        after.diff_kind == view.diff_kind,
        after.file_path == view.file_path,
        after.project_path == view.project_path,
        after.scroll == view.scroll,
{
}

/// Nothing but scrolling by hand, while no position is being copied, copies a position, and
/// then it is that of the side that was scrolled.
pub proof fn law_what_copies_scrolling(sync: ScrollSync, from: Side, event: EditorEvent)
    ensures
        sync.reaction(from, event) is CopyScroll <==> event == (
        EditorEvent::ScrollPositionChanged { local: true }) && !sync.syncing,
        sync.reaction(from, event) is CopyScroll || sync.reaction(from, event) is Nothing,
        sync.reaction(from, event) matches EditorReaction::CopyScroll { from: side } ==> side
            == from,
{
}

/// A diff opens three rows above its first change, or at the top where there are fewer.
pub proof fn law_opening_row(hunks: Seq<DiffHunk>)
    ensures
        hunks.len() == 0 ==> first_scroll_row(hunks) is None,
        hunks.len() > 0 && hunks[0].row_start >= 3 ==> first_scroll_row(hunks) is Some
            && first_scroll_row(hunks)->0 + 3 == hunks[0].row_start,
        hunks.len() > 0 && hunks[0].row_start < 3 ==> first_scroll_row(hunks) == Some(0u32),
{
}

/// The arrow up goes to the previous change, the arrow down to the next one.
pub proof fn law_hunk_buttons()
    ensures
        previous_button().action == HunkAction::GoToPreviousHunk,
        previous_button().icon == IconName::ArrowUp,
        previous_button().id == "prev-hunk",
        previous_button().tooltip == "Go to previous change",
        next_button().action == HunkAction::GoToHunk,
        next_button().icon == IconName::ArrowDown,
        next_button().id == "next-hunk",
        next_button().tooltip == "Go to next change",
{
}

/// In place of audio devices stands that there are none.
pub proof fn law_no_audio_devices()
    ensures
        no_audio_devices().text == "Audio devices not available",
        no_audio_devices().color == Color::Muted,
{
}

} // verus!
