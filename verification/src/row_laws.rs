//! What the rows of the panel hold, field by field.

use crate::entries::{all_commit_rows, belongs, commit_rows, file_row, group_paths, history_list,
    history_rows, members, section, status_rows, ChangeGroup, VsGitListEntry};
use crate::entry_laws::{law_every_file_has_its_rows, law_group_paths_are_the_members,
    law_more_commits_add_rows, member_paths};
use crate::model::{CommitFile, FileHistoryEntry, StageStatus, StatusEntry};
use crate::vs_git_panel::VsGitPanel;
use vstd::prelude::*;

verus! {

/// The files of a group are those of the changed files that it is for, each as it is and as
/// often as it is there, in their order: the conflicted ones, those with something staged,
/// and those that are not staged as a whole.
pub proof fn law_members_in_order(statuses: Seq<StatusEntry>)
    ensures
        members(statuses, ChangeGroup::MergeConflicts) == statuses.filter(
            |e: StatusEntry| e.status.conflicted,
        ),
        members(statuses, ChangeGroup::StagedChanges) == statuses.filter(
            |e: StatusEntry|
                !e.status.conflicted && (e.status.staging == StageStatus::Staged || e.status.staging
                    == StageStatus::PartiallyStaged),
        ),
        members(statuses, ChangeGroup::Changes) == statuses.filter(
            |e: StatusEntry|
                !e.status.conflicted && (e.status.staging == StageStatus::Unstaged
                    || e.status.staging == StageStatus::PartiallyStaged),
        ),
    decreases statuses.len(),
{
    reveal(Seq::filter);
    if statuses.len() > 0 {
        law_members_in_order(statuses.drop_last());
    }
}

/// Every changed file has, in each group that it is listed in, a row with its very path and
/// status.
pub proof fn law_file_rows_hold_path_and_status(
    statuses: Seq<StatusEntry>,
    group: ChangeGroup,
    i: int,
)
    requires
        0 <= i < statuses.len(),
        match group {
            ChangeGroup::MergeConflicts => statuses[i].status.conflicted,
            ChangeGroup::StagedChanges => !statuses[i].status.conflicted
                && statuses[i].status.staging != StageStatus::Unstaged,
            ChangeGroup::Changes => !statuses[i].status.conflicted && statuses[i].status.staging
                != StageStatus::Staged,
        },
    ensures
        exists|j: int|
            0 <= j < status_rows(statuses).len() && {
                &&& (#[trigger] status_rows(statuses)[j]) is FileEntry
                &&& status_rows(statuses)[j]->repo_path == statuses[i].repo_path
                &&& status_rows(statuses)[j]->FileEntry_status == statuses[i].status
                &&& status_rows(statuses)[j]->FileEntry_group == group
            },
{
    law_every_file_has_its_rows(statuses, group, i);
    let rows = status_rows(statuses);
    let row = file_row(statuses[i], group);
    let j = choose|j: int| 0 <= j < rows.len() && rows[j] == row;
    assert(rows[j] is FileEntry);
}

proof fn lemma_members_are_files(statuses: Seq<StatusEntry>, group: ChangeGroup, j: int)
    requires
        0 <= j < members(statuses, group).len(),
    ensures
        statuses.contains(members(statuses, group)[j]),
        belongs(members(statuses, group)[j].status, group),
    decreases statuses.len(),
{
    if statuses.len() > 0 {
        let rest = statuses.drop_last();
        if j < members(rest, group).len() {
            lemma_members_are_files(rest, group, j);
            let i = choose|i: int| 0 <= i < rest.len() && rest[i] == members(rest, group)[j];
            assert(statuses[i] == members(statuses, group)[j]);
        } else {
            assert(statuses[statuses.len() - 1] == members(statuses, group)[j]);
        }
    }
}

/// The length of the rows of a group of `count` files: one more for the header.
pub open spec fn section_len(count: nat) -> nat {
    if count == 0 { 0 } else { count + 1 }
}

/// Where the rows of a group begin: the conflicts come first, then the staged changes.
pub open spec fn section_start(statuses: Seq<StatusEntry>, group: ChangeGroup) -> nat {
    let conflicts = section_len(members(statuses, ChangeGroup::MergeConflicts).len());
    let staged = section_len(members(statuses, ChangeGroup::StagedChanges).len());
    match group {
        ChangeGroup::MergeConflicts => 0,
        ChangeGroup::StagedChanges => conflicts,
        ChangeGroup::Changes => conflicts + staged,
    }
}

/// The rows of a group are a header with the group and the number of its files, and then a
/// row for each of its files in order, with the path and the status of the file. It is shown
/// as staged among the staged changes, as not staged among the changes, and as it is among
/// the conflicts.
pub proof fn law_rows_of_a_group(statuses: Seq<StatusEntry>, group: ChangeGroup, i: int)
    requires
        0 <= i < members(statuses, group).len() <= usize::MAX,
    ensures
        ({
            let rows = status_rows(statuses);
            let files = members(statuses, group);
            let start = section_start(statuses, group) as int;
            &&& start + files.len() < rows.len()
            &&& rows[start] is GroupHeader
            &&& rows[start]->GroupHeader_group == group
            &&& rows[start]->count == files.len()
            &&& rows[start + 1 + i] is FileEntry
            &&& rows[start + 1 + i]->repo_path == files[i].repo_path
            &&& rows[start + 1 + i]->FileEntry_status == files[i].status
            &&& rows[start + 1 + i]->FileEntry_group == group
            &&& group == ChangeGroup::StagedChanges ==> rows[start + 1 + i]->staging
                == StageStatus::Staged
            &&& group == ChangeGroup::Changes ==> rows[start + 1 + i]->staging
                == StageStatus::Unstaged
            &&& group == ChangeGroup::MergeConflicts ==> rows[start + 1 + i]->staging
                == files[i].status.staging
        }),
{
    lemma_section(statuses, ChangeGroup::MergeConflicts);
    lemma_section(statuses, ChangeGroup::StagedChanges);
    lemma_section(statuses, ChangeGroup::Changes);
    let start = section_start(statuses, group) as int;
    let rows = status_rows(statuses);
    assert(rows[start] == section(statuses, group)[0]);
    assert(rows[start + 1 + i] == section(statuses, group)[i + 1]);
    assert(section(statuses, group)[i + 1] == file_row(members(statuses, group)[i], group));
}

proof fn lemma_section(statuses: Seq<StatusEntry>, group: ChangeGroup)
    ensures
        section(statuses, group).len() == section_len(members(statuses, group).len()),
{
}

/// The rows are those of the three groups and no others.
pub proof fn law_rows_are_those_of_the_groups(statuses: Seq<StatusEntry>)
    ensures
        status_rows(statuses).len() == section_start(statuses, ChangeGroup::Changes)
            + section_len(members(statuses, ChangeGroup::Changes).len()),
{
    lemma_section(statuses, ChangeGroup::MergeConflicts);
    lemma_section(statuses, ChangeGroup::StagedChanges);
    lemma_section(statuses, ChangeGroup::Changes);
}

proof fn lemma_file_in_section(statuses: Seq<StatusEntry>, group: ChangeGroup, j: int)
    requires
        0 <= j < section(statuses, group).len(),
        section(statuses, group)[j] is FileEntry,
    ensures
        exists|i: int|
            0 <= i < statuses.len() && section(statuses, group)[j] == file_row(
                #[trigger] statuses[i],
                group,
            ) && belongs(statuses[i].status, group),
{
    let files = members(statuses, group);
    assert(j > 0);
    lemma_members_are_files(statuses, group, j - 1);
    assert(section(statuses, group)[j] == file_row(files[j - 1], group));
    let i = choose|i: int| 0 <= i < statuses.len() && statuses[i] == files[j - 1];
    assert(section(statuses, group)[j] == file_row(statuses[i], group));
}

/// Every file row has the path and the status of one of the changed files, and stands in a
/// group that this file is for.
pub proof fn law_file_rows_are_changed_files(statuses: Seq<StatusEntry>, j: int)
    requires
        0 <= j < status_rows(statuses).len(),
        status_rows(statuses)[j] is FileEntry,
    ensures
        exists|i: int|
            0 <= i < statuses.len() && {
                let row = status_rows(statuses)[j];
                &&& row->repo_path == (#[trigger] statuses[i]).repo_path
                &&& row->FileEntry_status == statuses[i].status
                &&& match row->FileEntry_group {
                    ChangeGroup::MergeConflicts => statuses[i].status.conflicted,
                    ChangeGroup::StagedChanges => !statuses[i].status.conflicted
                        && statuses[i].status.staging != StageStatus::Unstaged,
                    ChangeGroup::Changes => !statuses[i].status.conflicted
                        && statuses[i].status.staging != StageStatus::Staged,
                }
            },
{
    let conflicts = section(statuses, ChangeGroup::MergeConflicts);
    let staged = section(statuses, ChangeGroup::StagedChanges);
    let changes = section(statuses, ChangeGroup::Changes);
    let (group, at): (ChangeGroup, int) = if j < conflicts.len() {
        (ChangeGroup::MergeConflicts, j)
    } else if j < conflicts.len() + staged.len() {
        (ChangeGroup::StagedChanges, j - conflicts.len())
    } else {
        (ChangeGroup::Changes, j - conflicts.len() - staged.len())
    };
    assert(status_rows(statuses)[j] == section(statuses, group)[at]);
    lemma_file_in_section(statuses, group, at);
    let i = choose|i: int|
        0 <= i < statuses.len() && section(statuses, group)[at] == file_row(
            #[trigger] statuses[i],
            group,
        ) && belongs(statuses[i].status, group);
    assert(status_rows(statuses)[j]->repo_path == statuses[i].repo_path);
}

/// Of any rows, the paths of a group are those of the file rows that carry this group, in
/// order: a further row adds its path where it is such a row, and nothing else.
pub proof fn law_paths_of_a_group(
    rows: Seq<VsGitListEntry>,
    row: VsGitListEntry,
    group: ChangeGroup,
)
    ensures
        group_paths(Seq::empty(), group).len() == 0,
        row is FileEntry && row->FileEntry_group == group ==> group_paths(rows.push(row), group)
            == group_paths(rows, group).push(row->repo_path),
        !(row is FileEntry && row->FileEntry_group == group) ==> group_paths(rows.push(row), group)
            == group_paths(rows, group),
{
    assert(rows.push(row).drop_last() =~= rows);
}

/// Staging or unstaging a group touches the paths of its files, in order.
pub proof fn law_group_paths_are_the_paths_of_its_files(
    statuses: Seq<StatusEntry>,
    group: ChangeGroup,
    i: int,
)
    requires
        0 <= i < members(statuses, group).len(),
    ensures
        group_paths(status_rows(statuses), group).len() == members(statuses, group).len(),
        group_paths(status_rows(statuses), group)[i] == members(statuses, group)[i].repo_path,
{
    law_group_paths_are_the_members(statuses, group);
    assert(member_paths(statuses, group)[i] == members(statuses, group)[i].repo_path);
}

/// How many rows the commits before commit `c` take up.
pub open spec fn rows_before_commit(
    commits: Seq<FileHistoryEntry>,
    expanded: Set<Seq<char>>,
    files: Map<Seq<char>, Vec<CommitFile>>,
    c: int,
) -> nat
    decreases c,
{
    if c <= 0 {
        0
    } else {
        let sha = commits[c - 1].sha@;
        rows_before_commit(commits, expanded, files, c - 1) + 1 + if expanded.contains(sha)
            && files.contains_key(sha) {
            files[sha]@.len()
        } else {
            0
        }
    }
}

proof fn lemma_rows_before_commit(
    commits: Seq<FileHistoryEntry>,
    expanded: Set<Seq<char>>,
    files: Map<Seq<char>, Vec<CommitFile>>,
    c: int,
)
    requires
        0 <= c <= commits.len(),
    ensures
        all_commit_rows(commits.take(c), expanded, files).len() == rows_before_commit(
            commits,
            expanded,
            files,
            c,
        ),
    decreases c,
{
    if c > 0 {
        lemma_rows_before_commit(commits, expanded, files, c - 1);
        assert(commits.take(c).drop_last() =~= commits.take(c - 1));
    }
}

/// In the list of commits, each commit has a row with its hash, subject, author and time,
/// which says whether it is expanded. Where it is expanded and its files are loaded, row
/// `i + 1` behind it is that of its file `i`, with the hash of the commit and the path and
/// the status of the file; else the row of the next commit follows.
pub proof fn law_commit_rows_on_fields(
    commits: Seq<FileHistoryEntry>,
    expanded: Set<Seq<char>>,
    files: Map<Seq<char>, Vec<CommitFile>>,
    has_more: bool,
    c: int,
)
    requires
        0 <= c < commits.len(),
    ensures
        ({
            let list = history_list(commits, expanded, files, has_more);
            let sha = commits[c].sha@;
            let at = rows_before_commit(commits, expanded, files, c) as int;
            &&& at < list.len()
            &&& list[at] is CommitEntry
            &&& list[at]->CommitEntry_sha == commits[c].sha
            &&& list[at]->subject == commits[c].subject
            &&& list[at]->author == commits[c].author_name
            &&& list[at]->timestamp == commits[c].commit_timestamp
            &&& list[at]->expanded == expanded.contains(sha)
            &&& expanded.contains(sha) && files.contains_key(sha) ==> forall|i: int|
                0 <= i < files[sha]@.len() ==> {
                    &&& at + 1 + i < list.len()
                    &&& list[at + 1 + i] is CommitFileEntry
                    &&& list[at + 1 + i]->CommitFileEntry_sha == commits[c].sha
                    &&& list[at + 1 + i]->path == (#[trigger] files[sha]@[i]).path
                    &&& list[at + 1 + i]->CommitFileEntry_status == files[sha]@[i].status
                }
        }),
{
    let list = history_list(commits, expanded, files, has_more);
    let sha = commits[c].sha@;
    let at = rows_before_commit(commits, expanded, files, c) as int;
    let before = commits.take(c);
    let upto = commits.take(c + 1);
    lemma_rows_before_commit(commits, expanded, files, c);
    assert(upto.drop_last() =~= before);
    assert(upto + commits.skip(c + 1) =~= commits);
    law_more_commits_add_rows(upto, commits.skip(c + 1), expanded, files);
    let own = commit_rows(commits[c], expanded, files);
    assert(all_commit_rows(upto, expanded, files) == all_commit_rows(before, expanded, files) + own);
    assert forall|i: int| 0 <= i < own.len() implies list[at + i] == #[trigger] own[i] by {
        assert(all_commit_rows(upto, expanded, files)[at + i] == own[i]);
        assert(all_commit_rows(commits, expanded, files)[at + i] == own[i]);
    }
    assert(list[at + 0] == own[0]);
    if expanded.contains(sha) && files.contains_key(sha) {
        assert forall|i: int| 0 <= i < files[sha]@.len() implies {
            &&& at + 1 + i < list.len()
            &&& list[at + 1 + i] is CommitFileEntry
            &&& list[at + 1 + i]->CommitFileEntry_sha == commits[c].sha
            &&& list[at + 1 + i]->path == (#[trigger] files[sha]@[i]).path
            &&& list[at + 1 + i]->CommitFileEntry_status == files[sha]@[i].status
        } by {
            assert(list[at + (1 + i)] == own[1 + i]);
        }
    }
}

/// The list of commits holds the rows of the commits, and behind them one row more exactly
/// where there are more commits to load: the button that loads them.
pub proof fn law_end_of_the_commit_list(
    commits: Seq<FileHistoryEntry>,
    expanded: Set<Seq<char>>,
    files: Map<Seq<char>, Vec<CommitFile>>,
    has_more: bool,
)
    ensures
        ({
            let list = history_list(commits, expanded, files, has_more);
            let rows = rows_before_commit(commits, expanded, files, commits.len() as int);
            &&& list.len() == rows + if has_more { 1nat } else { 0nat }
            &&& has_more ==> list.last() is LoadMoreButton
        }),
{
    assert(commits.take(commits.len() as int) =~= commits);
    lemma_rows_before_commit(commits, expanded, files, commits.len() as int);
}

/// A history without commits has no rows; a collapsed one has its header alone; any other has
/// its header, and then row for row the list of commits.
pub proof fn law_history_rows(
    commits: Seq<FileHistoryEntry>,
    expanded: Set<Seq<char>>,
    files: Map<Seq<char>, Vec<CommitFile>>,
    has_more: bool,
    collapsed: bool,
)
    ensures
        ({
            let rows = history_rows(commits, expanded, files, has_more, collapsed);
            let list = history_list(commits, expanded, files, has_more);
            &&& commits.len() == 0 ==> rows.len() == 0
            &&& commits.len() > 0 ==> rows.len() > 0 && rows[0] is HistoryHeader
            &&& commits.len() > 0 && collapsed ==> rows.len() == 1
            &&& commits.len() > 0 && !collapsed ==> rows.len() == list.len() + 1 && forall|i: int|
                0 <= i < list.len() ==> rows[i + 1] == #[trigger] list[i]
        }),
{
}

/// In the rows of a history that is not collapsed, the row of each commit and those of its
/// files stand as in the list of commits, one further down: each file of an expanded commit,
/// once loaded, with the hash of the commit and its own path and status.
pub proof fn law_history_rows_on_fields(
    commits: Seq<FileHistoryEntry>,
    expanded: Set<Seq<char>>,
    files: Map<Seq<char>, Vec<CommitFile>>,
    has_more: bool,
    c: int,
)
    requires
        0 <= c < commits.len(),
    ensures
        ({
            let rows = history_rows(commits, expanded, files, has_more, false);
            let sha = commits[c].sha@;
            let at = rows_before_commit(commits, expanded, files, c) as int + 1;
            &&& at < rows.len()
            &&& rows[at] is CommitEntry
            &&& rows[at]->CommitEntry_sha == commits[c].sha
            &&& rows[at]->subject == commits[c].subject
            &&& rows[at]->author == commits[c].author_name
            &&& rows[at]->timestamp == commits[c].commit_timestamp
            &&& rows[at]->expanded == expanded.contains(sha)
            &&& expanded.contains(sha) && files.contains_key(sha) ==> forall|i: int|
                0 <= i < files[sha]@.len() ==> {
                    &&& at + 1 + i < rows.len()
                    &&& rows[at + 1 + i] is CommitFileEntry
                    &&& rows[at + 1 + i]->CommitFileEntry_sha == commits[c].sha
                    &&& rows[at + 1 + i]->path == (#[trigger] files[sha]@[i]).path
                    &&& rows[at + 1 + i]->CommitFileEntry_status == files[sha]@[i].status
                }
        }),
{
    law_commit_rows_on_fields(commits, expanded, files, has_more, c);
    let rows = history_rows(commits, expanded, files, has_more, false);
    let list = history_list(commits, expanded, files, has_more);
    let sha = commits[c].sha@;
    let at = rows_before_commit(commits, expanded, files, c) as int;
    assert(rows[at + 1] == list[at]);
    if expanded.contains(sha) && files.contains_key(sha) {
        assert forall|i: int| 0 <= i < files[sha]@.len() implies {
            &&& at + 2 + i < rows.len()
            &&& rows[at + 1 + 1 + i] is CommitFileEntry
            &&& rows[at + 1 + 1 + i]->CommitFileEntry_sha == commits[c].sha
            &&& rows[at + 1 + 1 + i]->path == (#[trigger] files[sha]@[i]).path
            &&& rows[at + 1 + 1 + i]->CommitFileEntry_status == files[sha]@[i].status
        } by {
            assert(rows[at + 1 + 1 + i] == list[at + 1 + i]);
        }
    }
}

/// With the rows of the panel up to date, every changed file of the active repository has its
/// row in each group that it is for, with its very path and status.
pub proof fn law_panel_lists_every_changed_file(panel: VsGitPanel, group: ChangeGroup, i: int)
    requires
        panel.rows_current(),
        panel.active_repository is Some,
        ({
            let files = panel.active_repository->0.cached_status@;
            0 <= i < files.len() && match group {
                ChangeGroup::MergeConflicts => files[i].status.conflicted,
                ChangeGroup::StagedChanges => !files[i].status.conflicted && files[i].status.staging
                    != StageStatus::Unstaged,
                ChangeGroup::Changes => !files[i].status.conflicted && files[i].status.staging
                    != StageStatus::Staged,
            }
        }),
    ensures
        exists|j: int|
            0 <= j < panel.status_entries@.len() && {
                let file = panel.active_repository->0.cached_status@[i];
                &&& (#[trigger] panel.status_entries@[j]) is FileEntry
                &&& panel.status_entries@[j]->repo_path == file.repo_path
                &&& panel.status_entries@[j]->FileEntry_status == file.status
                &&& panel.status_entries@[j]->FileEntry_group == group
            },
{
    law_file_rows_hold_path_and_status(panel.active_repository->0.cached_status@, group, i);
}

/// With the rows of the panel up to date, every file row is that of a changed file of the
/// active repository, and without one there are no rows at all.
pub proof fn law_panel_lists_changed_files_only(panel: VsGitPanel, j: int)
    requires
        panel.rows_current(),
    ensures
        panel.active_repository is None ==> panel.status_entries@.len() == 0
            && panel.history_entries@.len() == 0,
        panel.active_repository is Some && 0 <= j < panel.status_entries@.len()
            && panel.status_entries@[j] is FileEntry ==> exists|i: int|
            0 <= i < panel.statuses().len() && (#[trigger] panel.statuses()[i]).repo_path
                == panel.status_entries@[j]->repo_path && panel.statuses()[i].status
                == panel.status_entries@[j]->FileEntry_status,
        panel.active_repository is Some ==> panel.statuses()
            == panel.active_repository->0.cached_status@,
{
    if 0 <= j < panel.status_entries@.len() && panel.status_entries@[j] is FileEntry {
        law_file_rows_are_changed_files(panel.statuses(), j);
    }
}

/// With the rows of the panel up to date, the counts are those of the files that are for each
/// group.
pub proof fn law_panel_counts(panel: VsGitPanel)
    requires
        panel.rows_current(),
        panel.active_repository is Some,
    ensures
        ({
            let files = panel.active_repository->0.cached_status@;
            &&& panel.conflict_count == files.filter(|e: StatusEntry| e.status.conflicted).len()
            &&& panel.staged_count == files.filter(
                |e: StatusEntry|
                    !e.status.conflicted && (e.status.staging == StageStatus::Staged
                        || e.status.staging == StageStatus::PartiallyStaged),
            ).len()
            &&& panel.unstaged_count == files.filter(
                |e: StatusEntry|
                    !e.status.conflicted && (e.status.staging == StageStatus::Unstaged
                        || e.status.staging == StageStatus::PartiallyStaged),
            ).len()
        }),
{
    law_members_in_order(panel.active_repository->0.cached_status@);
}

/// With the rows of the panel up to date and the history expanded, the row behind the header
/// of each commit, and those of its files, are as the list of commits has them.
pub proof fn law_panel_shows_the_history(panel: VsGitPanel)
    requires
        panel.rows_current(),
        panel.active_repository is Some,
    ensures
        panel.commit_entries@.len() == 0 ==> panel.history_entries@.len() == 0,
        panel.commit_entries@.len() > 0 ==> panel.history_entries@.len() > 0
            && panel.history_entries@[0] is HistoryHeader,
        panel.commit_entries@.len() > 0 && panel.history_collapsed
            ==> panel.history_entries@.len() == 1,
        panel.commit_entries@.len() > 0 && !panel.history_collapsed
            ==> panel.history_entries@.drop_first() == history_list(
            panel.commit_entries@,
            panel.expanded_commits@,
            panel.commit_files@,
            panel.has_more_commits,
        ),
        panel.commit_list() == history_list(
            panel.commit_entries@,
            panel.expanded_commits@,
            panel.commit_files@,
            panel.has_more_commits,
        ),
{
    law_history_rows(
        panel.commit_entries@,
        panel.expanded_commits@,
        panel.commit_files@,
        panel.has_more_commits,
        panel.history_collapsed,
    );
    if panel.commit_entries@.len() > 0 && !panel.history_collapsed {
        assert(panel.history_entries@.drop_first() =~= panel.commit_list());
    }
}

/// To bring the rows up to date changes nothing but the rows and the counts.
pub proof fn law_rows_leave_the_rest(panel: VsGitPanel, rows: VsGitPanel)
    ensures
        ({
            let after = panel.with_rows_of(rows);
            &&& after.active_repository == panel.active_repository
            &&& after.selected_entry == panel.selected_entry
            &&& after.commit_entries == panel.commit_entries
            &&& after.expanded_commits == panel.expanded_commits
            &&& after.commit_files == panel.commit_files
            &&& after.history_loaded == panel.history_loaded
            &&& after.history_collapsed == panel.history_collapsed
            &&& after.base_ref == panel.base_ref
            &&& after.base_branch == panel.base_branch
            &&& after.compared_files == panel.compared_files
            &&& after.compared_collapsed == panel.compared_collapsed
            &&& after.has_more_commits == panel.has_more_commits
            &&& after.git_worktrees == panel.git_worktrees
            &&& after.status_entries == rows.status_entries
            &&& after.history_entries == rows.history_entries
            &&& after.staged_count == rows.staged_count
            &&& after.unstaged_count == rows.unstaged_count
            &&& after.conflict_count == rows.conflict_count
        }),
{
}

} // verus!
