//! What the rows of the panel show.

use crate::entries::{all_commit_rows, belongs, file_row, file_rows, group_paths, history_list,
    history_rows, members, section, status_rows, ChangeGroup, VsGitListEntry};
use crate::model::{CommitFile, FileHistoryEntry, RepoPath, StageStatus, StatusEntry};
use vstd::prelude::*;

verus! {

/// Which groups a file is listed in. A partially staged file is listed among the staged
/// changes and among the changes; any other file is listed in exactly one group.
pub proof fn law_groups_of_a_file(entry: StatusEntry)
    ensures
        ({
            let in_conflicts = belongs(entry.status, ChangeGroup::MergeConflicts);
            let in_staged = belongs(entry.status, ChangeGroup::StagedChanges);
            let in_changes = belongs(entry.status, ChangeGroup::Changes);
            if entry.status.conflicted {
                in_conflicts && !in_staged && !in_changes
            } else {
                match entry.status.staging {
                    StageStatus::Staged => !in_conflicts && in_staged && !in_changes,
                    StageStatus::Unstaged => !in_conflicts && !in_staged && in_changes,
                    StageStatus::PartiallyStaged => !in_conflicts && in_staged && in_changes,
                }
            }
        }),
{
}

/// The members of a group are the files that belong to it.
proof fn lemma_members(statuses: Seq<StatusEntry>, group: ChangeGroup)
    ensures
        forall|i: int|
            0 <= i < statuses.len() && belongs((#[trigger] statuses[i]).status, group)
                ==> members(statuses, group).contains(statuses[i]),
        forall|j: int|
            0 <= j < members(statuses, group).len() ==> belongs(
                (#[trigger] members(statuses, group)[j]).status,
                group,
            ) && statuses.contains(members(statuses, group)[j]),
    decreases statuses.len(),
{
    if statuses.len() > 0 {
        let rest = statuses.drop_last();
        let before = members(rest, group);
        let now = members(statuses, group);
        lemma_members(rest, group);
        assert forall|i: int|
            0 <= i < statuses.len() && belongs(
                (#[trigger] statuses[i]).status,
                group,
            ) implies now.contains(statuses[i]) by {
            if i < rest.len() {
                assert(rest[i] == statuses[i]);
                let j = choose|j: int| 0 <= j < before.len() && before[j] == statuses[i];
                assert(now[j] == statuses[i]);
            } else {
                assert(now[before.len() as int] == statuses[i]);
            }
        }
        assert forall|j: int| 0 <= j < now.len() implies belongs((#[trigger] now[j]).status, group)
            && statuses.contains(now[j]) by {
            if j < before.len() {
                assert(now[j] == before[j]);
                let i = choose|i: int| 0 <= i < rest.len() && rest[i] == before[j];
                assert(statuses[i] == now[j]);
            } else {
                assert(statuses[statuses.len() - 1] == now[j]);
            }
        }
    }
}

proof fn lemma_row_in_section(statuses: Seq<StatusEntry>, group: ChangeGroup, i: int)
    requires
        0 <= i < statuses.len(),
        belongs(statuses[i].status, group),
    ensures
        section(statuses, group).contains(file_row(statuses[i], group)),
{
    lemma_members(statuses, group);
    let files = members(statuses, group);
    let j = choose|j: int| 0 <= j < files.len() && files[j] == statuses[i];
    assert(section(statuses, group)[j + 1] == file_row(statuses[i], group));
}

/// Every changed file has a row in each group that it belongs to, with its own path and
/// status.
pub proof fn law_every_file_has_its_rows(
    statuses: Seq<StatusEntry>,
    group: ChangeGroup,
    i: int,
)
    requires
        0 <= i < statuses.len(),
        belongs(statuses[i].status, group),
    ensures
        status_rows(statuses).contains(file_row(statuses[i], group)),
{
    lemma_row_in_section(statuses, group, i);
    let conflicts = section(statuses, ChangeGroup::MergeConflicts);
    let staged = section(statuses, ChangeGroup::StagedChanges);
    let rows = section(statuses, group);
    let j = choose|j: int| 0 <= j < rows.len() && rows[j] == file_row(statuses[i], group);
    let at = match group {
        ChangeGroup::MergeConflicts => j,
        ChangeGroup::StagedChanges => conflicts.len() + j,
        ChangeGroup::Changes => conflicts.len() + staged.len() + j,
    };
    assert(status_rows(statuses)[at] == file_row(statuses[i], group));
}

proof fn lemma_group_paths_concat(
    a: Seq<VsGitListEntry>,
    b: Seq<VsGitListEntry>,
    group: ChangeGroup,
)
    ensures
        group_paths(a + b, group) == group_paths(a, group) + group_paths(b, group),
    decreases b.len(),
{
    if b.len() == 0 {
        assert(a + b =~= a);
        assert(group_paths(a, group) + group_paths(b, group) =~= group_paths(a, group));
    } else {
        assert((a + b).drop_last() =~= a + b.drop_last());
        lemma_group_paths_concat(a, b.drop_last(), group);
        assert(group_paths(a + b, group) =~= group_paths(a, group) + group_paths(b, group));
    }
}

/// The paths of the files of a group.
pub open spec fn member_paths(statuses: Seq<StatusEntry>, group: ChangeGroup) -> Seq<RepoPath> {
    Seq::new(members(statuses, group).len(), |i: int| members(statuses, group)[i].repo_path)
}

proof fn lemma_group_paths_of_rows(files: Seq<StatusEntry>, shown: ChangeGroup, group: ChangeGroup)
    ensures
        group_paths(file_rows(files, shown), group) == if shown == group {
            Seq::new(files.len(), |i: int| files[i].repo_path)
        } else {
            Seq::empty()
        },
    decreases files.len(),
{
    let rows = file_rows(files, shown);
    if files.len() > 0 {
        lemma_group_paths_of_rows(files.drop_last(), shown, group);
        assert(rows.drop_last() =~= file_rows(files.drop_last(), shown));
        assert(rows.last() == file_row(files.last(), shown));
    }
    assert(group_paths(rows, group) =~= if shown == group {
        Seq::new(files.len(), |i: int| files[i].repo_path)
    } else {
        Seq::empty()
    });
}

proof fn lemma_group_paths_of_section(
    statuses: Seq<StatusEntry>,
    shown: ChangeGroup,
    group: ChangeGroup,
)
    ensures
        group_paths(section(statuses, shown), group) == if shown == group {
            member_paths(statuses, group)
        } else {
            Seq::empty()
        },
{
    let files = members(statuses, shown);
    lemma_group_paths_of_rows(files, shown, group);
    if files.len() > 0 {
        let header = seq![
            VsGitListEntry::GroupHeader { group: shown, count: files.len() as usize },
        ];
        lemma_group_paths_concat(header, file_rows(files, shown), group);
        reveal_with_fuel(group_paths, 2);
        assert(group_paths(header, group) =~= Seq::<RepoPath>::empty());
    }
    assert(group_paths(section(statuses, shown), group) =~= if shown == group {
        member_paths(statuses, group)
    } else {
        Seq::empty()
    });
}

/// The files that the rows list in a group are the members of the group, in their order:
/// staging or unstaging a group touches its members and no other file.
pub proof fn law_group_paths_are_the_members(statuses: Seq<StatusEntry>, group: ChangeGroup)
    ensures
        group_paths(status_rows(statuses), group) == member_paths(statuses, group),
{
    let conflicts = section(statuses, ChangeGroup::MergeConflicts);
    let staged = section(statuses, ChangeGroup::StagedChanges);
    let changes = section(statuses, ChangeGroup::Changes);
    lemma_group_paths_concat(conflicts + staged, changes, group);
    lemma_group_paths_concat(conflicts, staged, group);
    lemma_group_paths_of_section(statuses, ChangeGroup::MergeConflicts, group);
    lemma_group_paths_of_section(statuses, ChangeGroup::StagedChanges, group);
    lemma_group_paths_of_section(statuses, ChangeGroup::Changes, group);
    assert(group_paths(status_rows(statuses), group) =~= member_paths(statuses, group));
}

/// How many of `rows` are files.
pub open spec fn file_count(rows: Seq<VsGitListEntry>) -> nat
    decreases rows.len(),
{
    if rows.len() == 0 {
        0
    } else {
        file_count(rows.drop_last()) + if rows.last() is FileEntry { 1nat } else { 0nat }
    }
}

/// Every file row is in one of the three groups.
pub proof fn lemma_file_count_by_group(rows: Seq<VsGitListEntry>)
    ensures
        file_count(rows) == group_paths(rows, ChangeGroup::MergeConflicts).len() + group_paths(
            rows,
            ChangeGroup::StagedChanges,
        ).len() + group_paths(rows, ChangeGroup::Changes).len(),
        file_count(rows) <= rows.len(),
    decreases rows.len(),
{
    if rows.len() > 0 {
        lemma_file_count_by_group(rows.drop_last());
    }
}

/// The rows of a longer history begin with those of a shorter one: loading a further page
/// of commits only adds rows.
pub proof fn law_more_commits_add_rows(
    shown: Seq<FileHistoryEntry>,
    more: Seq<FileHistoryEntry>,
    expanded: Set<Seq<char>>,
    files: Map<Seq<char>, Vec<CommitFile>>,
)
    ensures
        all_commit_rows(shown + more, expanded, files) == all_commit_rows(shown, expanded, files)
            + all_commit_rows(more, expanded, files),
    decreases more.len(),
{
    if more.len() == 0 {
        assert(shown + more =~= shown);
        assert(all_commit_rows(shown, expanded, files) + all_commit_rows(more, expanded, files)
            =~= all_commit_rows(shown, expanded, files));
    } else {
        assert((shown + more).drop_last() =~= shown + more.drop_last());
        law_more_commits_add_rows(shown, more.drop_last(), expanded, files);
        assert(all_commit_rows(shown + more, expanded, files) =~= all_commit_rows(
            shown,
            expanded,
            files,
        ) + all_commit_rows(more, expanded, files));
    }
}

/// An expanded history section is its header and the list of commits.
pub proof fn law_history_section_is_header_and_list(
    commits: Seq<FileHistoryEntry>,
    expanded: Set<Seq<char>>,
    files: Map<Seq<char>, Vec<CommitFile>>,
    has_more: bool,
)
    requires
        commits.len() > 0,
    ensures
        history_rows(commits, expanded, files, has_more, false).first()
            == VsGitListEntry::HistoryHeader,
        history_rows(commits, expanded, files, has_more, false).drop_first() == history_list(
            commits,
            expanded,
            files,
            has_more,
        ),
        history_rows(commits, expanded, files, has_more, true) == seq![
            VsGitListEntry::HistoryHeader,
        ],
{
    assert(history_rows(commits, expanded, files, has_more, false).drop_first() =~= history_list(
        commits,
        expanded,
        files,
        has_more,
    ));
}

} // verus!
