//! The rows of the panel: changed files by group, and the commit history.

use crate::model::{CommitFile, CommitFileStatus, FileHistoryEntry, FileStatus, RepoPath,
    StageStatus, StatusEntry};
use vstd::hash_map::StringHashMap;
use vstd::hash_set::StringHashSet;
use vstd::prelude::*;

verus! {

/// The sections that changed files are listed in.
#[derive(Debug, Clone, Copy, PartialEq, Eq, Structural)]
pub enum ChangeGroup {
    MergeConflicts,
    StagedChanges,
    Changes,
}

impl ChangeGroup {
    /// The title of the section.
    pub open spec fn spec_label(self) -> &'static str {
        match self {
            ChangeGroup::MergeConflicts => "Merge Conflicts",
            ChangeGroup::StagedChanges => "Staged Changes",
            ChangeGroup::Changes => "Changes",
        }
    }

    /// The title of the section.
    pub fn label(&self) -> (r: &'static str)
        ensures
            r == self.spec_label(),
    {
        match self {
            ChangeGroup::MergeConflicts => "Merge Conflicts",
            ChangeGroup::StagedChanges => "Staged Changes",
            ChangeGroup::Changes => "Changes",
        }
    }
}

/// A row of the panel.
#[allow(inconsistent_fields)]
#[derive(Debug, PartialEq, Eq)]
pub enum VsGitListEntry {
    GroupHeader { group: ChangeGroup, count: usize },
    FileEntry { repo_path: RepoPath, status: FileStatus, staging: StageStatus, group: ChangeGroup },
    HistoryHeader,
    CommitEntry { sha: String, subject: String, author: String, timestamp: i64, expanded: bool },
    CommitFileEntry { sha: String, path: RepoPath, status: CommitFileStatus },
    LoadMoreButton,
}

/// Whether a file is listed in a group. A conflicted file is listed as such and nowhere
/// else; of the others, what is staged is listed among the staged changes and what is not
/// among the changes.
pub open spec fn belongs(status: FileStatus, group: ChangeGroup) -> bool {
    match group {
        ChangeGroup::MergeConflicts => status.conflicted,
        ChangeGroup::StagedChanges => !status.conflicted && status.staging.spec_has_staged(),
        ChangeGroup::Changes => !status.conflicted && status.staging != StageStatus::Staged,
    }
}

/// The files of a group, in their order.
pub open spec fn members(statuses: Seq<StatusEntry>, group: ChangeGroup) -> Seq<StatusEntry>
    decreases statuses.len(),
{
    if statuses.len() == 0 {
        Seq::empty()
    } else if belongs(statuses.last().status, group) {
        members(statuses.drop_last(), group).push(statuses.last())
    } else {
        members(statuses.drop_last(), group)
    }
}

/// The staging that a file is shown with in a group.
pub open spec fn shown_staging(status: FileStatus, group: ChangeGroup) -> StageStatus {
    match group {
        ChangeGroup::MergeConflicts => status.staging,
        ChangeGroup::StagedChanges => StageStatus::Staged,
        ChangeGroup::Changes => StageStatus::Unstaged,
    }
}

/// The row of a file in a group.
pub open spec fn file_row(entry: StatusEntry, group: ChangeGroup) -> VsGitListEntry {
    VsGitListEntry::FileEntry {
        repo_path: entry.repo_path,
        status: entry.status,
        staging: shown_staging(entry.status, group),
        group,
    }
}

/// The rows of the files in `files`, all of one group.
pub open spec fn file_rows(files: Seq<StatusEntry>, group: ChangeGroup) -> Seq<VsGitListEntry> {
    Seq::new(files.len(), |i: int| file_row(files[i], group))
}

/// The rows of a group: a header with the number of files, then the files. A group without
/// files has no rows.
pub open spec fn section(statuses: Seq<StatusEntry>, group: ChangeGroup) -> Seq<VsGitListEntry> {
    let files = members(statuses, group);
    if files.len() == 0 {
        Seq::empty()
    } else {
        seq![VsGitListEntry::GroupHeader { group, count: files.len() as usize }] + file_rows(
            files,
            group,
        )
    }
}

/// The rows of all changed files.
pub open spec fn status_rows(statuses: Seq<StatusEntry>) -> Seq<VsGitListEntry> {
    section(statuses, ChangeGroup::MergeConflicts) + section(statuses, ChangeGroup::StagedChanges)
        + section(statuses, ChangeGroup::Changes)
}

/// The paths of the files that `rows` lists in a group.
pub open spec fn group_paths(rows: Seq<VsGitListEntry>, group: ChangeGroup) -> Seq<RepoPath>
    decreases rows.len(),
{
    if rows.len() == 0 {
        Seq::empty()
    } else {
        let before = group_paths(rows.drop_last(), group);
        match rows.last() {
            VsGitListEntry::FileEntry { repo_path, group: g, .. } => if g == group {
                before.push(repo_path)
            } else {
                before
            },
            _ => before,
        }
    }
}

fn belongs_to(status: &FileStatus, group: ChangeGroup) -> (r: bool)
    ensures
        r == belongs(*status, group),
{
    match group {
        ChangeGroup::MergeConflicts => status.conflicted,
        ChangeGroup::StagedChanges => !status.conflicted && status.staging.has_staged(),
        ChangeGroup::Changes => !status.conflicted && status.staging != StageStatus::Staged,
    }
}

fn make_file_row(entry: &StatusEntry, group: ChangeGroup) -> (r: VsGitListEntry)
    ensures
        r == file_row(*entry, group),
{
    let staging = match group {
        ChangeGroup::MergeConflicts => entry.status.staging,
        ChangeGroup::StagedChanges => StageStatus::Staged,
        ChangeGroup::Changes => StageStatus::Unstaged,
    };
    VsGitListEntry::FileEntry {
        repo_path: entry.repo_path.clone(),
        status: entry.status,
        staging,
        group,
    }
}

/// Adds the rows of a group to `rows` and returns how many files the group has.
pub fn push_section(
    rows: &mut Vec<VsGitListEntry>,
    statuses: &Vec<StatusEntry>,
    group: ChangeGroup,
) -> (count: usize)
    ensures
        final(rows)@ == old(rows)@ + section(statuses@, group),
        count == members(statuses@, group).len(),
{
    let mut files: Vec<VsGitListEntry> = Vec::new();
    let mut i: usize = 0;
    while i < statuses.len()
        invariant
            i <= statuses.len(),
            files@ == file_rows(members(statuses@.take(i as int), group), group),
        decreases statuses.len() - i,
    {
        proof {
            assert(statuses@.take(i + 1).drop_last() =~= statuses@.take(i as int));
        }
        if belongs_to(&statuses[i].status, group) {
            files.push(make_file_row(&statuses[i], group));
        }
        i = i + 1;
        assert(files@ =~= file_rows(members(statuses@.take(i as int), group), group));
    }
    assert(statuses@.take(i as int) =~= statuses@);
    let count: usize = files.len();
    if count > 0 {
        rows.push(VsGitListEntry::GroupHeader { group, count });
        rows.append(&mut files);
    }
    assert(rows@ =~= old(rows)@ + section(statuses@, group));
    count
}

/// The paths of the files that `rows` lists in a group.
pub fn collect_group_paths(rows: &Vec<VsGitListEntry>, group: ChangeGroup) -> (r: Vec<RepoPath>)
    ensures
        r@ == group_paths(rows@, group),
{
    let mut r: Vec<RepoPath> = Vec::new();
    let mut i: usize = 0;
    while i < rows.len()
        invariant
            i <= rows.len(),
            r@ == group_paths(rows@.take(i as int), group),
        decreases rows.len() - i,
    {
        proof {
            assert(rows@.take(i + 1).drop_last() =~= rows@.take(i as int));
        }
        match &rows[i] {
            VsGitListEntry::FileEntry { repo_path, group: g, .. } => {
                if *g == group {
                    r.push(repo_path.clone());
                }
            },
            _ => {},
        }
        i = i + 1;
    }
    assert(rows@.take(i as int) =~= rows@);
    r
}

/// The row of a commit.
pub open spec fn commit_row(commit: FileHistoryEntry, expanded: bool) -> VsGitListEntry {
    VsGitListEntry::CommitEntry {
        sha: commit.sha,
        subject: commit.subject,
        author: commit.author_name,
        timestamp: commit.commit_timestamp,
        expanded,
    }
}

/// The rows of the files of a commit.
pub open spec fn commit_file_rows(sha: String, files: Seq<CommitFile>) -> Seq<VsGitListEntry> {
    Seq::new(
        files.len(),
        |i: int|
            VsGitListEntry::CommitFileEntry { sha, path: files[i].path, status: files[i].status },
    )
}

/// The rows of a commit: the commit, and its files where it is expanded and they are
/// loaded.
pub open spec fn commit_rows(
    commit: FileHistoryEntry,
    expanded: Set<Seq<char>>,
    files: Map<Seq<char>, Vec<CommitFile>>,
) -> Seq<VsGitListEntry> {
    let is_expanded = expanded.contains(commit.sha@);
    seq![commit_row(commit, is_expanded)] + if is_expanded && files.contains_key(commit.sha@) {
        commit_file_rows(commit.sha, files[commit.sha@]@)
    } else {
        Seq::empty()
    }
}

/// The rows of several commits.
pub open spec fn all_commit_rows(
    commits: Seq<FileHistoryEntry>,
    expanded: Set<Seq<char>>,
    files: Map<Seq<char>, Vec<CommitFile>>,
) -> Seq<VsGitListEntry>
    decreases commits.len(),
{
    if commits.len() == 0 {
        Seq::empty()
    } else {
        all_commit_rows(commits.drop_last(), expanded, files) + commit_rows(
            commits.last(),
            expanded,
            files,
        )
    }
}

/// The list of commits: their rows, and a button where there are more of them to load.
pub open spec fn history_list(
    commits: Seq<FileHistoryEntry>,
    expanded: Set<Seq<char>>,
    files: Map<Seq<char>, Vec<CommitFile>>,
    has_more: bool,
) -> Seq<VsGitListEntry> {
    all_commit_rows(commits, expanded, files) + if has_more {
        seq![VsGitListEntry::LoadMoreButton]
    } else {
        Seq::empty()
    }
}

/// The history section: a header and, unless it is collapsed, the list of commits. A
/// history without commits has no rows.
pub open spec fn history_rows(
    commits: Seq<FileHistoryEntry>,
    expanded: Set<Seq<char>>,
    files: Map<Seq<char>, Vec<CommitFile>>,
    has_more: bool,
    collapsed: bool,
) -> Seq<VsGitListEntry> {
    if commits.len() == 0 {
        Seq::empty()
    } else {
        seq![VsGitListEntry::HistoryHeader] + if collapsed {
            Seq::empty()
        } else {
            history_list(commits, expanded, files, has_more)
        }
    }
}

fn push_commit_files(rows: &mut Vec<VsGitListEntry>, sha: &String, files: &Vec<CommitFile>)
    ensures
        final(rows)@ == old(rows)@ + commit_file_rows(*sha, files@),
{
    let ghost before = rows@;
    let mut i: usize = 0;
    while i < files.len()
        invariant
            i <= files.len(),
            rows@ == before + commit_file_rows(*sha, files@.take(i as int)),
        decreases files.len() - i,
    {
        rows.push(
            VsGitListEntry::CommitFileEntry {
                sha: sha.clone(),
                path: files[i].path.clone(),
                status: files[i].status,
            },
        );
        i = i + 1;
        assert(rows@ =~= before + commit_file_rows(*sha, files@.take(i as int)));
    }
    assert(files@.take(i as int) =~= files@);
}

/// The list of commits.
pub fn build_history_list(
    commits: &Vec<FileHistoryEntry>,
    expanded_commits: &StringHashSet,
    commit_files: &StringHashMap<Vec<CommitFile>>,
    has_more: bool,
) -> (rows: Vec<VsGitListEntry>)
    ensures
        rows@ == history_list(commits@, expanded_commits@, commit_files@, has_more),
{
    let mut rows: Vec<VsGitListEntry> = Vec::new();
    let mut i: usize = 0;
    while i < commits.len()
        invariant
            i <= commits.len(),
            rows@ == all_commit_rows(
                commits@.take(i as int),
                expanded_commits@,
                commit_files@,
            ),
        decreases commits.len() - i,
    {
        let ghost before = rows@;
        let commit = &commits[i];
        let expanded = expanded_commits.contains(&commit.sha);
        rows.push(
            VsGitListEntry::CommitEntry {
                sha: commit.sha.clone(),
                subject: commit.subject.clone(),
                author: commit.author_name.clone(),
                timestamp: commit.commit_timestamp,
                expanded,
            },
        );
        if expanded {
            match commit_files.get(&commit.sha) {
                Some(files) => {
                    push_commit_files(&mut rows, &commit.sha, files);
                },
                None => {},
            }
        }
        proof {
            assert(commits@.take(i + 1).drop_last() =~= commits@.take(i as int));
            assert(rows@ =~= before + commit_rows(*commit, expanded_commits@, commit_files@));
        }
        i = i + 1;
    }
    assert(commits@.take(i as int) =~= commits@);
    if has_more {
        rows.push(VsGitListEntry::LoadMoreButton);
    }
    assert(rows@ =~= history_list(commits@, expanded_commits@, commit_files@, has_more));
    rows
}

} // verus!
