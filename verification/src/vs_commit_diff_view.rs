//! The side-by-side diff of one file of a commit, or of a branch comparison.

use crate::alignment::{base_bytes, bytes_of, count_lhs_lines, extra_offset, highlight_in_range,
    highlights_in_range, hunk_in_range, hunks_in_range, lhs_highlights, lhs_spacers,
    make_lhs_spacer, make_rhs_spacer, rhs_spacers, to_row, DiffHunk, RowRange, SpacerBlock};
use crate::model::ProjectPath;
use crate::scroll_sync::{EditorEvent, EditorReaction, ScrollSync, Side};
use crate::text::join3;
use vstd::prelude::*;
use vstd::string::*;

verus! {

/// The state of the diff of one file of a commit.
pub struct VsCommitDiffView {
    pub full_path: String,
    pub filename: String,
    /// The abbreviated hash of the commit, or the name of the base branch.
    pub sha_short: String,
    pub project_path: Option<ProjectPath>,
    pub scroll: ScrollSync,
}

/// What the editors of the diff are made from. Neither text can be edited.
#[derive(Debug, PartialEq, Eq)]
pub struct CommitEditors {
    pub lhs_text: String,
    pub rhs_text: String,
    /// What the right side is compared with.
    pub base_text: String,
}

/// The blocks that keep the two sides aligned, and the left rows that were changed.
pub struct CommitAlignment {
    pub rhs: Vec<SpacerBlock>,
    pub lhs: Vec<SpacerBlock>,
    pub highlights: Vec<RowRange>,
}

/// The spacer blocks and left row highlights for the hunks of a diff against `base_text`,
/// on a left side whose last row is `lhs_max_row`.
pub fn insert_alignment_blocks(
    hunks: &Vec<DiffHunk>,
    base_text: Option<&str>,
    lhs_max_row: u32,
) -> (r: CommitAlignment)
    requires
        hunks_in_range(base_bytes(base_text), hunks@),
        highlights_in_range(base_bytes(base_text), hunks@, lhs_max_row),
    ensures
        r.rhs@ == rhs_spacers(base_bytes(base_text), hunks@, hunks@.len() as int),
        r.lhs@ == lhs_spacers(base_bytes(base_text), hunks@, lhs_max_row, hunks@.len() as int),
        r.highlights@ == lhs_highlights(
            base_bytes(base_text),
            hunks@,
            lhs_max_row,
            hunks@.len() as int,
        ),
{
    let base = bytes_of(base_text);
    let mut rhs: Vec<SpacerBlock> = Vec::new();
    let mut lhs: Vec<SpacerBlock> = Vec::new();
    let mut highlights: Vec<RowRange> = Vec::new();
    let mut offset: i64 = 0;
    let mut k: usize = 0;
    while k < hunks.len()
        invariant
            0 <= k <= hunks.len(),
            base@ == base_bytes(base_text),
            hunks_in_range(base@, hunks@),
            highlights_in_range(base@, hunks@, lhs_max_row),
            offset == extra_offset(base@, hunks@, k as int),
            rhs@ == rhs_spacers(base@, hunks@, k as int),
            lhs@ == lhs_spacers(base@, hunks@, lhs_max_row, k as int),
            highlights@ == lhs_highlights(base@, hunks@, lhs_max_row, k as int),
        decreases hunks.len() - k,
    {
        let hunk = hunks[k];
        assert(hunk_in_range(base@, hunks@, k as int));
        assert(highlight_in_range(base@, hunks@, lhs_max_row, k as int));
        let lhs_count: i64 = count_lhs_lines(base, &hunk);
        let diff: i64 = (hunk.row_end as i64 - hunk.row_start as i64) - lhs_count;
        if lhs_count > 0 {
            let start: u32 = to_row(hunk.row_start as i64 - offset);
            let end: u32 = to_row(start as i64 + lhs_count);
            let end: u32 = if end <= lhs_max_row { end } else { lhs_max_row + 1 };
            highlights.push(RowRange { start, end });
        }
        if diff > 0 {
            lhs.push(make_lhs_spacer(hunk.row_start, offset, lhs_count, diff, lhs_max_row));
        } else if diff < 0 {
            rhs.push(make_rhs_spacer(hunk.row_start, diff));
        }
        offset = offset + diff;
        k = k + 1;
    }
    CommitAlignment { rhs, lhs, highlights }
}

impl VsCommitDiffView {
    /// The state of a diff that is being opened, and what its editors are made from.
    pub fn new(
        old_text: String,
        new_text: String,
        full_path: String,
        filename: String,
        sha_short: String,
        project_path: Option<ProjectPath>,
    ) -> (r: (VsCommitDiffView, CommitEditors))
        ensures
            r.0 == (VsCommitDiffView {
                full_path,
                filename,
                sha_short,
                project_path,
                scroll: ScrollSync { syncing: false },
            }),
            r.1 == (CommitEditors {
                lhs_text: old_text,
                rhs_text: new_text,
                base_text: old_text,
            }),
    {
        let view = VsCommitDiffView {
            full_path,
            filename,
            sha_short,
            project_path,
            scroll: ScrollSync::new(),
        };
        let lhs_text = old_text.clone();
        (view, CommitEditors { lhs_text, rhs_text: new_text, base_text: old_text })
    }

    /// Takes note of an event in one of the editors.
    pub fn on_editor_event(&mut self, from: Side, event: EditorEvent) -> (r: EditorReaction)
        ensures
            *final(self) == (VsCommitDiffView { scroll: final(self).scroll, ..*old(self) }),
            r == old(self).scroll.reaction(from, event),
            final(self).scroll.syncing == (old(self).scroll.syncing || r is CopyScroll),
    {
        self.scroll.on_event(from, event)
    }

    /// The title of the tab.
    pub fn tab_content_text(&self) -> (r: String)
        ensures
            r@ == self.filename@ + " ("@ + self.sha_short@ + ")"@,
    {
        let mut r = join3(&self.filename, " (", &self.sha_short);
        r.append(")");
        r
    }

    /// The event that is reported when the diff is opened.
    pub fn telemetry_event_text(&self) -> (r: Option<&'static str>)
        ensures
            r == Some("VS Commit Diff Opened"),
    {
        Some("VS Commit Diff Opened")
    }

    /// The path above the diff.
    pub fn breadcrumbs(&self) -> (r: String)
        ensures
            r@ == self.full_path@ + " @ "@ + self.sha_short@,
    {
        join3(&self.full_path, " @ ", &self.sha_short)
    }
}

} // verus!
