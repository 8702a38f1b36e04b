//! What holds of the panel from event to event.

use crate::entries::{commit_rows, group_paths, ChangeGroup};
use crate::entry_laws::{file_count, law_group_paths_are_the_members, lemma_file_count_by_group,
    member_paths};
use crate::model::{CommitFile, ComparedFile, FileHistoryEntry, FileStatus, PaneItem, ProjectPath,
    RepoPath};
use crate::panel_view::{file_buttons, ButtonAction};
use crate::text::last_segment_of;
use crate::vs_file_diff_view::{is_editors_of, DiffEditors, RhsContent, VsDiffKind};
use crate::vs_git_panel::{commits_after_page, diff_kind_of, discard_steps, find_commit_diff,
    find_commit_file, find_file_diff, is_full_page, shows_commit_diff, shows_file_diff, toggled,
    ComparedDiffAction, DiffRequest, DiscardStep, VsGitPanel, HISTORY_PAGE_SIZE};
use vstd::prelude::*;

verus! {

/// Rows that are up to date make a well formed panel, whose total is the sum of the sizes
/// of the three groups.
pub proof fn law_current_rows_are_well_formed(panel: VsGitPanel)
    requires
        panel.rows_current(),
    ensures
        panel.well_formed(),
        file_count(panel.status_entries@) == member_paths(
            panel.statuses(),
            ChangeGroup::MergeConflicts,
        ).len() + member_paths(panel.statuses(), ChangeGroup::StagedChanges).len() + member_paths(
            panel.statuses(),
            ChangeGroup::Changes,
        ).len(),
{
    law_group_paths_are_the_members(panel.statuses(), ChangeGroup::MergeConflicts);
    law_group_paths_are_the_members(panel.statuses(), ChangeGroup::StagedChanges);
    law_group_paths_are_the_members(panel.statuses(), ChangeGroup::Changes);
    lemma_file_count_by_group(panel.status_entries@);
}

/// With the rows up to date, staging or unstaging a group touches the files that belong to
/// it: for the staged changes all that have something staged, for the changes all that
/// have something that is not.
pub proof fn law_group_buttons_touch_the_group(panel: VsGitPanel, group: ChangeGroup)
    requires
        panel.rows_current(),
    ensures
        group_paths(panel.status_entries@, group) == member_paths(panel.statuses(), group),
{
    law_group_paths_are_the_members(panel.statuses(), group);
}

/// Clicking a commit twice leaves it as it was, and clicking one leaves the others alone.
pub proof fn law_toggling(expanded: Set<Seq<char>>, sha: Seq<char>, other: Seq<char>)
    ensures
        toggled(toggled(expanded, sha), sha) == expanded,
        toggled(expanded, sha).contains(sha) == !expanded.contains(sha),
        other != sha ==> toggled(expanded, sha).contains(other) == expanded.contains(other),
{
    assert(toggled(toggled(expanded, sha), sha) =~= expanded);
}

/// The rows of a commit that is not expanded are the commit alone; those of one that is
/// expanded go on with its files once they are loaded.
pub proof fn law_expanded_commit_shows_its_files(
    commit: FileHistoryEntry,
    expanded: Set<Seq<char>>,
    files: Map<Seq<char>, Vec<CommitFile>>,
)
    ensures
        commit_rows(commit, expanded, files).len() == 1 + if expanded.contains(commit.sha@)
            && files.contains_key(commit.sha@) {
            files[commit.sha@]@.len()
        } else {
            0
        },
        commit_rows(commit, expanded, files)[0] is CommitEntry,
{
}

/// Loading the first page and then, behind it, the next one gives both pages in order.
pub proof fn law_pages_follow_each_other(
    loaded: Seq<FileHistoryEntry>,
    first: Seq<FileHistoryEntry>,
    second: Seq<FileHistoryEntry>,
)
    ensures
        commits_after_page(commits_after_page(loaded, 0, first), first.len(), second) == first
            + second,
{
    assert(first.len() == 0 ==> second =~= first + second);
}

/// The commits of `log` that a page behind the first `skip` has.
pub open spec fn page_of_log(log: Seq<FileHistoryEntry>, skip: nat) -> Seq<FileHistoryEntry> {
    let size = HISTORY_PAGE_SIZE as nat;
    let start = if skip <= log.len() { skip } else { log.len() };
    let end = if skip + size <= log.len() { skip + size } else { log.len() };
    log.subrange(start as int, end as int)
}

/// How many commits are skipped when page `pages` is asked for, counted from one: none for
/// the first page, and all that are loaded for any other.
pub open spec fn skip_of_page(
    loaded: Seq<FileHistoryEntry>,
    log: Seq<FileHistoryEntry>,
    pages: nat,
) -> nat
    decreases pages, 0nat,
{
    if pages <= 1 { 0 } else { commits_after_pages(loaded, log, (pages - 1) as nat).len() }
}

/// The commits after `pages` pages of `log` were loaded, where `loaded` were there before.
pub open spec fn commits_after_pages(
    loaded: Seq<FileHistoryEntry>,
    log: Seq<FileHistoryEntry>,
    pages: nat,
) -> Seq<FileHistoryEntry>
    decreases pages, 1nat,
{
    if pages == 0 {
        loaded
    } else {
        let skip = skip_of_page(loaded, log, pages);
        commits_after_page(
            commits_after_pages(loaded, log, (pages - 1) as nat),
            skip,
            page_of_log(log, skip),
        )
    }
}

/// However many pages of a log are loaded, the commits are those that the log begins with,
/// a page's worth for each page as far as the log goes. Where the last page was not full, so
/// that no more are offered, they are the whole log.
pub proof fn law_pages_make_up_the_log(
    loaded: Seq<FileHistoryEntry>,
    log: Seq<FileHistoryEntry>,
    pages: nat,
)
    requires
        pages > 0,
    ensures
        commits_after_pages(loaded, log, pages) == log.take(
            if HISTORY_PAGE_SIZE * pages <= log.len() {
                HISTORY_PAGE_SIZE * pages
            } else {
                log.len() as int
            },
        ),
        !is_full_page(page_of_log(log, skip_of_page(loaded, log, pages)))
            ==> commits_after_pages(loaded, log, pages) == log,
    decreases pages,
{
    let skip = skip_of_page(loaded, log, pages);
    let before = commits_after_pages(loaded, log, (pages - 1) as nat);
    let page = page_of_log(log, skip);
    let now = commits_after_pages(loaded, log, pages);
    let shown = if HISTORY_PAGE_SIZE * pages <= log.len() {
        HISTORY_PAGE_SIZE * pages
    } else {
        log.len() as int
    };
    if pages > 1 {
        law_pages_make_up_the_log(loaded, log, (pages - 1) as nat);
    }
    assert(now =~= log.take(shown));
    assert(log.take(log.len() as int) =~= log);
}

/// Loading the first page again forgets what was loaded before.
pub proof fn law_first_page_starts_over(
    loaded: Seq<FileHistoryEntry>,
    page: Seq<FileHistoryEntry>,
)
    ensures
        commits_after_page(loaded, 0, page) == page,
{
}

/// [`find_file_diff`] finds a tab that shows the diff, and none before it does; where it
/// finds none there is none.
pub proof fn law_find_file_diff(
    items: Seq<PaneItem>,
    path: ProjectPath,
    kind: VsDiffKind,
    n: nat,
)
    requires
        n <= items.len() <= usize::MAX,
    ensures
        match find_file_diff(items, path, kind, n) {
            Some(ix) => ix < n && shows_file_diff(items[ix as int], path, kind) && forall|j: int|
                0 <= j < ix ==> !shows_file_diff(#[trigger] items[j], path, kind),
            None => forall|j: int|
                0 <= j < n ==> !shows_file_diff(#[trigger] items[j], path, kind),
        },
    decreases n,
{
    if n > 0 {
        law_find_file_diff(items, path, kind, (n - 1) as nat);
    }
}

/// [`find_commit_diff`] finds a tab that shows the diff, and none before it does; where it
/// finds none there is none.
pub proof fn law_find_commit_diff(
    items: Seq<PaneItem>,
    path: Seq<char>,
    sha: Seq<char>,
    n: nat,
)
    requires
        n <= items.len() <= usize::MAX,
    ensures
        match find_commit_diff(items, path, sha, n) {
            Some(ix) => ix < n && shows_commit_diff(items[ix as int], path, sha) && forall|j: int|
                0 <= j < ix ==> !shows_commit_diff(#[trigger] items[j], path, sha),
            None => forall|j: int|
                0 <= j < n ==> !shows_commit_diff(#[trigger] items[j], path, sha),
        },
    decreases n,
{
    if n > 0 {
        law_find_commit_diff(items, path, sha, (n - 1) as nat);
    }
}

/// [`find_commit_file`] finds the first file with a path, if there is one.
pub proof fn law_find_commit_file(files: Seq<CommitFile>, path: Seq<char>, n: nat)
    requires
        n <= files.len() <= usize::MAX,
    ensures
        match find_commit_file(files, path, n) {
            Some(ix) => ix < n && files[ix as int].path.path@ == path && forall|j: int|
                0 <= j < ix ==> (#[trigger] files[j]).path.path@ != path,
            None => forall|j: int| 0 <= j < n ==> (#[trigger] files[j]).path.path@ != path,
        },
    decreases n,
{
    if n > 0 {
        law_find_commit_file(files, path, (n - 1) as nat);
    }
}

/// Once the diff of a file is open in a tab of the pane, it is found there and not opened
/// again, whatever other tabs there are.
pub proof fn law_open_diff_is_not_opened_again(
    items: Seq<PaneItem>,
    path: ProjectPath,
    kind: VsDiffKind,
    at: int,
)
    requires
        0 <= at < items.len() <= usize::MAX,
        items[at] == (PaneItem::FileDiff { project_path: Some(path), diff_kind: kind }),
    ensures
        find_file_diff(items, path, kind, items.len()) is Some,
{
    law_find_file_diff(items, path, kind, items.len());
}

/// The same holds of the diff of a file of a commit, or of a branch comparison.
pub proof fn law_open_commit_diff_is_not_opened_again(
    items: Seq<PaneItem>,
    full_path: String,
    sha_short: String,
    at: int,
)
    requires
        0 <= at < items.len() <= usize::MAX,
        items[at] == (PaneItem::CommitDiff { full_path, sha_short }),
    ensures
        find_commit_diff(items, full_path@, sha_short@, items.len()) is Some,
{
    law_find_commit_diff(items, full_path@, sha_short@, items.len());
}

/// The diff of a file among the staged changes compares the index with HEAD; that of a file
/// anywhere else compares the working copy with the index.
pub proof fn law_what_a_group_compares(
    group: ChangeGroup,
    editors: DiffEditors,
    head_text: String,
    index_text: String,
)
    requires
        is_editors_of(editors, head_text, index_text, diff_kind_of(group)),
    ensures
        group == ChangeGroup::StagedChanges ==> editors.lhs_text == head_text
            && editors.rhs == (RhsContent::ReadOnlyText { text: index_text }),
        group != ChangeGroup::StagedChanges ==> editors.lhs_text == index_text && editors.rhs is WorkingCopy,
{
}

/// Once the files of a commit are loaded, its diffs are made from them, and those of other
/// commits from what they were made from before.
pub proof fn law_loaded_files_are_shown(
    before: VsGitPanel,
    after: VsGitPanel,
    sha: Seq<char>,
    files: Vec<CommitFile>,
    other: Seq<char>,
    path: Seq<char>,
)
    requires
        after.commit_files@ == before.commit_files@.insert(sha, files),
    ensures
        after.commit_file(sha, path) == match find_commit_file(files@, path, files@.len()) {
            Some(i) => Some(files@[i as int]),
            None => None,
        },
        other != sha ==> after.commit_file(other, path) == before.commit_file(other, path),
{
}

/// Once files are listed against a reference, a click on one of them asks for its texts
/// against that same reference, unless the diff is open already.
pub proof fn law_click_compares_with_the_listed_base(
    panel: VsGitPanel,
    listing: DiffRequest,
    files: Seq<ComparedFile>,
    ix: int,
    project_path: Option<ProjectPath>,
    items: Seq<PaneItem>,
    action: ComparedDiffAction,
)
    requires
        panel.base_ref == Some(listing.base_ref),
        panel.compared_files@ == files,
        panel.active_repository is Some,
        0 <= ix < files.len(),
        items.len() <= usize::MAX,
        panel.is_compared_click(ix, project_path, items, action),
    ensures
        match action {
            ComparedDiffAction::Load { request } => request.base_ref == listing.base_ref
                && request.path == files[ix].path,
            ComparedDiffAction::Activate { ix: tab } => tab < items.len() && shows_commit_diff(
                items[tab as int],
                files[ix].path.path@,
                last_segment_of(listing.base_ref@),
            ),
            ComparedDiffAction::Nothing => false,
        },
{
    law_find_commit_diff(
        items,
        files[ix].path.path@,
        last_segment_of(listing.base_ref@),
        items.len(),
    );
}

/// The two diffs of a partially staged file are different tabs: having one open does not
/// keep the other from being opened.
pub proof fn law_staged_and_unstaged_diffs_are_apart(path: ProjectPath, shown: ProjectPath)
    ensures
        !shows_file_diff(
            PaneItem::FileDiff { project_path: Some(shown), diff_kind: VsDiffKind::Staged },
            path,
            diff_kind_of(ChangeGroup::Changes),
        ),
        !shows_file_diff(
            PaneItem::FileDiff { project_path: Some(shown), diff_kind: VsDiffKind::Unstaged },
            path,
            diff_kind_of(ChangeGroup::StagedChanges),
        ),
{
}

/// Discarding never deletes a file that is not new and never checks out one that is; what
/// is staged is unstaged first; and no other file is touched.
pub proof fn law_discarding(
    repo_path: RepoPath,
    status: FileStatus,
    project_path: Option<ProjectPath>,
    i: int,
)
    requires
        0 <= i < discard_steps(repo_path, status, project_path).len(),
    ensures
        match discard_steps(repo_path, status, project_path)[i] {
            DiscardStep::Unstage { repo_path: path } => i == 0 && path == repo_path
                && status.staging.spec_has_staged(),
            DiscardStep::OpenBuffer { project_path: path } => !status.created && project_path
                == Some(path),
            DiscardStep::Checkout { repo_path: path, .. } => !status.created && path == repo_path
                && i == discard_steps(repo_path, status, project_path).len() - 1,
            DiscardStep::Delete { project_path: path, trash } => status.created && trash
                && project_path == Some(path),
        },
        status.staging.spec_has_staged() ==> discard_steps(repo_path, status, project_path)[0] is Unstage,
        !status.created ==> discard_steps(repo_path, status, project_path).last() is Checkout,
{
}

/// A file can be staged where it is listed with something that is not staged, or with
/// conflicts; unstaged where it is listed as staged; and discarded among the changes only.
pub proof fn law_buttons_of_groups(group: ChangeGroup)
    ensures
        ({
            let buttons = file_buttons(group);
            let offers = |action: ButtonAction|
                exists|i: int| 0 <= i < buttons.len() && (#[trigger] buttons[i]).action == action;
            &&& offers(ButtonAction::OpenFile)
            &&& offers(ButtonAction::Stage) <==> group != ChangeGroup::StagedChanges
            &&& offers(ButtonAction::Unstage) <==> group == ChangeGroup::StagedChanges
            &&& offers(ButtonAction::Discard) <==> group == ChangeGroup::Changes
        }),
{
    let buttons = file_buttons(group);
    assert(buttons[0].action == ButtonAction::OpenFile);
    assert(buttons[1].action == if group == ChangeGroup::StagedChanges {
        ButtonAction::Unstage
    } else {
        ButtonAction::Stage
    });
    if group == ChangeGroup::Changes {
        assert(buttons[2].action == ButtonAction::Discard);
    }
}

/// The panel always shows something, and says that there are no changes only where it has
/// nothing else to show.
pub proof fn law_layout(panel: VsGitPanel)
    ensures
        ({
            let layout = panel.layout();
            &&& layout.entries || layout.bottom_section || layout.empty_state
            &&& layout.empty_state ==> !layout.entries && !layout.bottom_section
            &&& layout.bottom_section <==> layout.compared || layout.history_header
            &&& layout.history_list ==> layout.history_header
            &&& layout.resizable_bottom ==> layout.bottom_section
        }),
{
}

} // verus!
