//! The side-by-side diff of one file with uncommitted changes.

use crate::alignment::{base_bytes, bytes_of, count_lhs_lines, extra_offset, hunk_icon,
    hunk_in_range, hunks_in_range, lhs_spacers, make_lhs_spacer, make_rhs_spacer, rhs_spacers,
    DiffHunk, HunkIconInfo, RowRange, SpacerBlock};
use crate::model::{Color, IconName, ProjectPath};
use crate::scroll_sync::{EditorEvent, EditorReaction, ScrollSync, Side};
use crate::text::join3;
use vstd::prelude::*;
use vstd::string::*;

verus! {

/// Which two versions of a file a diff compares.
#[derive(Debug, Clone, Copy, PartialEq, Eq, Structural)]
pub enum VsDiffKind {
    /// The working copy against the index, as `git diff` does.
    Unstaged,
    /// The index against HEAD, as `git diff --cached` does.
    Staged,
}

/// The blocks that keep the two sides aligned, and the divider icons.
pub struct AlignmentBlocks {
    pub rhs: Vec<SpacerBlock>,
    pub lhs: Vec<SpacerBlock>,
    pub icons: Vec<HunkIconInfo>,
}

/// The divider icons of a diff: one per hunk, and none where nothing can be staged.
pub open spec fn icons_of(base: Seq<u8>, hunks: Seq<DiffHunk>, diff_kind: VsDiffKind) -> Seq<
    HunkIconInfo,
> {
    match diff_kind {
        VsDiffKind::Unstaged => hunks.map_values(|hunk: DiffHunk| hunk_icon(base, hunk)),
        VsDiffKind::Staged => Seq::empty(),
    }
}

/// The file of a working copy.
#[derive(Debug, PartialEq, Eq)]
pub struct SourceFile {
    pub file_name: Option<String>,
    pub path: ProjectPath,
}

/// What the right side shows.
#[derive(Debug, PartialEq, Eq)]
pub enum RhsContent {
    /// The working copy, which can be edited.
    WorkingCopy,
    /// A text that cannot.
    ReadOnlyText { text: String },
}

/// Where the hunks of the diff come from.
#[derive(Debug, PartialEq, Eq)]
pub enum DiffSource {
    /// The diff of the working copy against the index, once it is loaded.
    UnstagedDiff,
    /// A diff of the right side against `base_text`, which is to be made.
    AgainstText { base_text: String },
}

/// What the editors of a diff are made from.
#[derive(Debug, PartialEq, Eq)]
pub struct DiffEditors {
    /// The text of the left side, which cannot be edited.
    pub lhs_text: String,
    pub rhs: RhsContent,
    pub source: DiffSource,
    /// The left side is the index and follows it.
    pub follows_index: bool,
}

/// The blocks to take out of the editors, and those to put in.
pub struct BlockRefresh {
    pub remove_rhs: Vec<usize>,
    pub remove_lhs: Vec<usize>,
    pub insert_rhs: Vec<SpacerBlock>,
    pub insert_lhs: Vec<SpacerBlock>,
}

/// What to load into the left side, and where to scroll it.
#[derive(Debug, PartialEq, Eq)]
pub struct IndexReload<P> {
    pub lhs_text: String,
    pub lhs_scroll: P,
}

/// A type that an item of a pane can be asked to act as.
#[derive(Debug, Clone, Copy, PartialEq, Eq, Structural)]
pub enum ItemType {
    /// The type of the item itself.
    Itself,
    Editor,
    Other,
}

/// What a diff acts as.
#[derive(Debug, Clone, Copy, PartialEq, Eq, Structural)]
pub enum ActsAs {
    Itself,
    RhsEditor,
    Nothing,
}

/// The path above a diff.
#[derive(Debug, PartialEq, Eq)]
pub enum Breadcrumbs {
    /// What the editor of the right side shows.
    OfRhsEditor,
    Text { text: String },
    Nothing,
}

/// The state of the diff of one file.
pub struct VsFileDiffView {
    pub diff_kind: VsDiffKind,
    pub file_path: Option<String>,
    pub project_path: Option<ProjectPath>,
    pub scroll: ScrollSync,
    pub hunk_icons: Vec<HunkIconInfo>,
    pub rhs_block_ids: Vec<usize>,
    pub lhs_block_ids: Vec<usize>,
}

/// The name that a file is shown under.
pub open spec fn shown_file_name(file: SourceFile) -> Seq<char> {
    match file.file_name {
        Some(name) => name@,
        None => "untitled"@,
    }
}

/// `editors` are those of the diff of a file whose text is `head_text` in HEAD and
/// `index_text` in the index: the left side is the older version, the right side the newer.
pub open spec fn is_editors_of(
    editors: DiffEditors,
    head_text: String,
    index_text: String,
    diff_kind: VsDiffKind,
) -> bool {
    match diff_kind {
        VsDiffKind::Unstaged => {
            &&& editors.lhs_text == index_text
            &&& editors.rhs is WorkingCopy
            &&& editors.source is UnstagedDiff
            &&& editors.follows_index
        },
        VsDiffKind::Staged => {
            &&& editors.lhs_text == head_text
            &&& editors.rhs == (RhsContent::ReadOnlyText { text: index_text })
            &&& editors.source == (DiffSource::AgainstText { base_text: head_text })
            &&& !editors.follows_index
        },
    }
}

/// What a change of the index to `index_text` loads into the left side, while the right side
/// is scrolled to `rhs_scroll`: the new text, where the left side shows the index.
pub open spec fn index_reload<P>(
    diff_kind: VsDiffKind,
    index_text: String,
    rhs_scroll: P,
) -> Option<IndexReload<P>> {
    match diff_kind {
        VsDiffKind::Unstaged => Some(
            IndexReload { lhs_text: index_text, lhs_scroll: rhs_scroll },
        ),
        VsDiffKind::Staged => None,
    }
}

/// The text of the left side, which was `shown`, after a change of the index.
pub open spec fn lhs_text_after<P>(shown: String, reload: Option<IndexReload<P>>) -> String {
    match reload {
        Some(reload) => reload.lhs_text,
        None => shown,
    }
}

/// The left side of a diff of the working copy follows the index: after a change of the
/// index it shows the new text where the right side is scrolled to, its blocks are those of
/// the new text, and scrolling is copied again. The left side of a diff of the index shows
/// HEAD as before, and nothing else changes either. Here `seen` is the state once the change
/// was noted, and `done` that after the blocks were computed anew.
pub proof fn law_left_side_follows_the_index<P>(
    view: VsFileDiffView,
    seen: VsFileDiffView,
    done: VsFileDiffView,
    editors: DiffEditors,
    head_text: String,
    old_index_text: String,
    index_text: String,
    rhs_scroll: P,
    refresh: BlockRefresh,
    hunks: Seq<DiffHunk>,
    base: Seq<u8>,
    lhs_max_row: u32,
)
    requires
        is_editors_of(editors, head_text, old_index_text, view.diff_kind),
        seen == view.index_noted(),
        view.diff_kind == VsDiffKind::Unstaged ==> seen.index_applied().is_refreshed(
            done,
            refresh,
            hunks,
            base,
            lhs_max_row,
        ),
    ensures
        ({
            let reload = index_reload(view.diff_kind, index_text, rhs_scroll);
            &&& editors.follows_index <==> reload is Some
            &&& view.diff_kind == VsDiffKind::Unstaged ==> {
                &&& lhs_text_after(editors.lhs_text, reload) == index_text
                &&& reload->0.lhs_scroll == rhs_scroll
                &&& refresh.remove_rhs@ == view.rhs_block_ids@
                &&& refresh.remove_lhs@ == view.lhs_block_ids@
                &&& refresh.insert_rhs@ == rhs_spacers(base, hunks, hunks.len() as int)
                &&& refresh.insert_lhs@ == lhs_spacers(
                    base,
                    hunks,
                    lhs_max_row,
                    hunks.len() as int,
                )
                &&& done.hunk_icons@ == icons_of(base, hunks, view.diff_kind)
                &&& !done.scroll.syncing
            }
            &&& view.diff_kind == VsDiffKind::Staged ==> {
                &&& lhs_text_after(editors.lhs_text, reload) == head_text
                &&& seen == view
            }
        }),
{
}

/// Whether a hunk, which has rows `rows`, is the one whose icons stand at row `row`.
pub open spec fn is_hunk_at(rows: RowRange, row: u32) -> bool {
    (rows.start <= row <= rows.end) || (row == 0 && rows.start == 0)
}

/// Which of the first `n` hunks are those whose icons stand at row `row`.
pub open spec fn hunks_at(hunks: Seq<RowRange>, row: u32, n: nat) -> Seq<usize>
    decreases n,
{
    if n == 0 {
        Seq::empty()
    } else {
        let before = hunks_at(hunks, row, (n - 1) as nat);
        if is_hunk_at(hunks[n - 1], row) {
            before.push((n - 1) as usize)
        } else {
            before
        }
    }
}

/// The hunks to stage on a click on the stage icon at row `hunk_row`.
pub fn matching_hunks(hunks: &Vec<RowRange>, hunk_row: u32) -> (r: Vec<usize>)
    ensures
        r@ == hunks_at(hunks@, hunk_row, hunks@.len()),
{
    let mut r: Vec<usize> = Vec::new();
    let mut i: usize = 0;
    while i < hunks.len()
        invariant
            i <= hunks.len(),
            r@ == hunks_at(hunks@, hunk_row, i as nat),
        decreases hunks.len() - i,
    {
        let rows = hunks[i];
        if (rows.start <= hunk_row && rows.end >= hunk_row) || (hunk_row == 0 && rows.start == 0) {
            r.push(i);
        }
        i = i + 1;
    }
    r
}

/// The hunks that a click on the stage icon of a hunk stages have that hunk among them,
/// and only hunks that reach the row of the icon.
pub proof fn law_stage_icon_stages_its_hunk(hunks: Seq<RowRange>, row: u32, i: int, n: nat)
    requires
        0 <= i < n <= hunks.len() <= usize::MAX,
        hunks[i].start == row,
        hunks[i].start <= hunks[i].end,
    ensures
        hunks_at(hunks, row, n).contains(i as usize),
        forall|j: int|
            0 <= j < hunks_at(hunks, row, n).len() ==> (#[trigger] hunks_at(hunks, row, n)[j]) < n
                && is_hunk_at(hunks[hunks_at(hunks, row, n)[j] as int], row),
    decreases n,
{
    lemma_hunks_at(hunks, row, n);
    let now = hunks_at(hunks, row, n);
    let before = hunks_at(hunks, row, (n - 1) as nat);
    if i == n - 1 {
        assert(now[before.len() as int] == i as usize);
    } else {
        law_stage_icon_stages_its_hunk(hunks, row, i, (n - 1) as nat);
        let j = choose|j: int| 0 <= j < before.len() && before[j] == i as usize;
        assert(now[j] == i as usize);
    }
}

proof fn lemma_hunks_at(hunks: Seq<RowRange>, row: u32, n: nat)
    requires
        n <= hunks.len() <= usize::MAX,
    ensures
        forall|j: int|
            0 <= j < hunks_at(hunks, row, n).len() ==> (#[trigger] hunks_at(hunks, row, n)[j]) < n
                && is_hunk_at(hunks[hunks_at(hunks, row, n)[j] as int], row),
    decreases n,
{
    if n > 0 {
        lemma_hunks_at(hunks, row, (n - 1) as nat);
        let before = hunks_at(hunks, row, (n - 1) as nat);
        let now = hunks_at(hunks, row, n);
        assert forall|j: int| 0 <= j < now.len() implies (#[trigger] now[j]) < n && is_hunk_at(
            hunks[now[j] as int],
            row,
        ) by {
            if j < before.len() {
                assert(now[j] == before[j]);
            }
        }
    }
}

/// Whether a click on the divider puts it back into the middle.
pub fn resets_divider(click_count: usize) -> (r: bool)
    ensures
        r == (click_count >= 2),
{
    click_count >= 2
}

/// The display row at which the icons of a hunk begin, where `display_row` is that of the
/// first right row of the hunk: above it stands the spacer, which the icons cover too.
pub fn icon_top(icon: &HunkIconInfo, display_row: u32) -> (r: i64)
    ensures
        r == display_row - icon.rhs_spacer_height,
{
    display_row as i64 - icon.rhs_spacer_height as i64
}

/// The right rows whose hunks a click on the restore icon of a hunk restores: the place of
/// the first one.
pub fn restore_range(icon: &HunkIconInfo) -> (r: RowRange)
    ensures
        r == (RowRange { start: icon.rhs_start_row, end: icon.rhs_start_row }),
{
    RowRange { start: icon.rhs_start_row, end: icon.rhs_start_row }
}

/// What a diff acts as.
pub open spec fn acting_as(item_type: ItemType) -> ActsAs {
    match item_type {
        ItemType::Itself => ActsAs::Itself,
        ItemType::Editor => ActsAs::RhsEditor,
        ItemType::Other => ActsAs::Nothing,
    }
}

/// What a diff acts as.
pub fn act_as_type(item_type: ItemType) -> (r: ActsAs)
    ensures
        r == acting_as(item_type),
{
    match item_type {
        ItemType::Itself => ActsAs::Itself,
        ItemType::Editor => ActsAs::RhsEditor,
        ItemType::Other => ActsAs::Nothing,
    }
}

/// The icon of the tab of a diff, and its color.
pub fn tab_icon() -> (r: (IconName, Color))
    ensures
        r == (IconName::Diff, Color::Muted),
{
    (IconName::Diff, Color::Muted)
}

/// The color of the title of a tab.
pub fn tab_color(selected: bool) -> (r: Color)
    ensures
        r == if selected { Color::Default } else { Color::Muted },
{
    if selected { Color::Default } else { Color::Muted }
}

impl VsFileDiffView {
    /// The state of a diff that is being opened, and what its editors are made from.
    pub fn new(
        file: Option<SourceFile>,
        head_text: String,
        index_text: String,
        diff_kind: VsDiffKind,
    ) -> (r: (VsFileDiffView, DiffEditors))
        ensures
            r.0.diff_kind == diff_kind,
            r.0.file_path is Some <==> file is Some,
            r.0.file_path matches Some(name) ==> name@ == shown_file_name(file->0),
            r.0.project_path == match file {
                Some(file) => Some(file.path),
                None => None,
            },
            !r.0.scroll.syncing,
            r.0.hunk_icons@.len() == 0,
            r.0.rhs_block_ids@.len() == 0,
            r.0.lhs_block_ids@.len() == 0,
            is_editors_of(r.1, head_text, index_text, diff_kind),
    {
        let (file_path, project_path) = match file {
            Some(file) => {
                let name = match file.file_name {
                    Some(name) => name,
                    None => "untitled".to_string(),
                };
                (Some(name), Some(file.path))
            },
            None => (None, None),
        };
        let editors = match diff_kind {
            VsDiffKind::Unstaged => DiffEditors {
                lhs_text: index_text,
                rhs: RhsContent::WorkingCopy,
                source: DiffSource::UnstagedDiff,
                follows_index: true,
            },
            VsDiffKind::Staged => DiffEditors {
                lhs_text: head_text.clone(),
                rhs: RhsContent::ReadOnlyText { text: index_text },
                source: DiffSource::AgainstText { base_text: head_text },
                follows_index: false,
            },
        };
        let view = VsFileDiffView {
            diff_kind,
            file_path,
            project_path,
            scroll: ScrollSync::new(),
            hunk_icons: Vec::new(),
            rhs_block_ids: Vec::new(),
            lhs_block_ids: Vec::new(),
        };
        (view, editors)
    }

    /// Takes note of an event in one of the editors. Edits happen on the right side.
    pub fn on_editor_event(&mut self, from: Side, event: EditorEvent) -> (r: EditorReaction)
        ensures
            *final(self) == (VsFileDiffView { scroll: final(self).scroll, ..*old(self) }),
            r == if from == Side::Rhs && (event == EditorEvent::DirtyChanged || event
                == EditorEvent::Saved) {
                EditorReaction::RefreshBlocks
            } else {
                old(self).scroll.reaction(from, event)
            },
            final(self).scroll.syncing == (old(self).scroll.syncing || r is CopyScroll),
    {
        if from == Side::Rhs && (event == EditorEvent::DirtyChanged || event
            == EditorEvent::Saved) {
            EditorReaction::RefreshBlocks
        } else {
            self.scroll.on_event(from, event)
        }
    }

    /// This state once a change of the index was noted.
    pub open spec fn index_noted(self) -> VsFileDiffView {
        VsFileDiffView {
            scroll: ScrollSync {
                syncing: self.scroll.syncing || self.diff_kind == VsDiffKind::Unstaged,
            },
            ..self
        }
    }

    /// This state once the left side was loaded anew.
    pub open spec fn index_applied(self) -> VsFileDiffView {
        VsFileDiffView { scroll: ScrollSync { syncing: false }, ..self }
    }

    /// The text of the index has become `index_text`, while the right side is scrolled to
    /// `rhs_scroll`. Where the left side shows the index, it is to be loaded anew and scrolled
    /// to where the right side is; until [`Self::index_reloaded`], scrolling is passed over.
    pub fn on_index_changed<P>(&mut self, index_text: String, rhs_scroll: P) -> (r: Option<
        IndexReload<P>,
    >)
        ensures
            r == index_reload(old(self).diff_kind, index_text, rhs_scroll),
            *final(self) == old(self).index_noted(),
    {
        if self.diff_kind == VsDiffKind::Unstaged {
            self.scroll.begin();
            Some(IndexReload { lhs_text: index_text, lhs_scroll: rhs_scroll })
        } else {
            None
        }
    }

    /// The left side was loaded anew: scrolling is copied again, and the spacer blocks and
    /// icons are computed anew.
    pub fn index_reloaded(
        &mut self,
        hunks: &Vec<DiffHunk>,
        base_text: Option<&str>,
        lhs_max_row: u32,
    ) -> (r: BlockRefresh)
        requires
            hunks_in_range(base_bytes(base_text), hunks@),
        ensures
            old(self).index_applied().is_refreshed(
                *final(self),
                r,
                hunks@,
                base_bytes(base_text),
                lhs_max_row,
            ),
            !final(self).scroll.syncing,
    {
        self.scroll.finish();
        self.refresh_alignment_blocks(hunks, base_text, lhs_max_row)
    }

    /// `refresh` takes out all blocks of this state and puts in those that `hunks` need, and
    /// `after` is this state with the icons of `hunks` and no blocks yet.
    pub open spec fn is_refreshed(
        self,
        after: VsFileDiffView,
        refresh: BlockRefresh,
        hunks: Seq<DiffHunk>,
        base: Seq<u8>,
        lhs_max_row: u32,
    ) -> bool {
        &&& refresh.remove_rhs@ == self.rhs_block_ids@
        &&& refresh.remove_lhs@ == self.lhs_block_ids@
        &&& refresh.insert_rhs@ == rhs_spacers(base, hunks, hunks.len() as int)
        &&& refresh.insert_lhs@ == lhs_spacers(base, hunks, lhs_max_row, hunks.len() as int)
        &&& after == (VsFileDiffView {
            hunk_icons: after.hunk_icons,
            rhs_block_ids: after.rhs_block_ids,
            lhs_block_ids: after.lhs_block_ids,
            ..self
        })
        &&& after.hunk_icons@ == icons_of(base, hunks, self.diff_kind)
        &&& after.rhs_block_ids@.len() == 0
        &&& after.lhs_block_ids@.len() == 0
    }

    /// Computes the spacer blocks and icons anew: all blocks that were put in before go.
    pub fn refresh_alignment_blocks(
        &mut self,
        hunks: &Vec<DiffHunk>,
        base_text: Option<&str>,
        lhs_max_row: u32,
    ) -> (r: BlockRefresh)
        requires
            hunks_in_range(base_bytes(base_text), hunks@),
        ensures
            old(self).is_refreshed(
                *final(self),
                r,
                hunks@,
                base_bytes(base_text),
                lhs_max_row,
            ),
    {
        let mut remove_rhs: Vec<usize> = Vec::new();
        let mut remove_lhs: Vec<usize> = Vec::new();
        std::mem::swap(&mut remove_rhs, &mut self.rhs_block_ids);
        std::mem::swap(&mut remove_lhs, &mut self.lhs_block_ids);
        let blocks = Self::compute_alignment_blocks(hunks, base_text, lhs_max_row, self.diff_kind);
        self.hunk_icons = blocks.icons;
        BlockRefresh {
            remove_rhs,
            remove_lhs,
            insert_rhs: blocks.rhs,
            insert_lhs: blocks.lhs,
        }
    }

    /// Remembers the blocks that were put in.
    pub fn blocks_inserted(&mut self, rhs_ids: Vec<usize>, lhs_ids: Vec<usize>)
        ensures
            *final(self) == (VsFileDiffView {
                rhs_block_ids: final(self).rhs_block_ids,
                lhs_block_ids: final(self).lhs_block_ids,
                ..*old(self)
            }),
            final(self).rhs_block_ids@ == old(self).rhs_block_ids@ + rhs_ids@,
            final(self).lhs_block_ids@ == old(self).lhs_block_ids@ + lhs_ids@,
    {
        let mut rhs_ids = rhs_ids;
        let mut lhs_ids = lhs_ids;
        self.rhs_block_ids.append(&mut rhs_ids);
        self.lhs_block_ids.append(&mut lhs_ids);
    }

    /// The spacer blocks and icons for the hunks of a diff against `base_text`, on a left side
    /// whose last row is `lhs_max_row`.
    pub fn compute_alignment_blocks(
        hunks: &Vec<DiffHunk>,
        base_text: Option<&str>,
        lhs_max_row: u32,
        diff_kind: VsDiffKind,
    ) -> (r: AlignmentBlocks)
        requires
            hunks_in_range(base_bytes(base_text), hunks@),
        ensures
            r.rhs@ == rhs_spacers(base_bytes(base_text), hunks@, hunks@.len() as int),
            r.lhs@ == lhs_spacers(base_bytes(base_text), hunks@, lhs_max_row, hunks@.len() as int),
            r.icons@ == icons_of(base_bytes(base_text), hunks@, diff_kind),
    {
        let base = bytes_of(base_text);
        let mut rhs: Vec<SpacerBlock> = Vec::new();
        let mut lhs: Vec<SpacerBlock> = Vec::new();
        let mut icons: Vec<HunkIconInfo> = Vec::new();
        let mut offset: i64 = 0;
        let mut k: usize = 0;
        while k < hunks.len()
            invariant
                0 <= k <= hunks.len(),
                base@ == base_bytes(base_text),
                hunks_in_range(base@, hunks@),
                offset == extra_offset(base@, hunks@, k as int),
                rhs@ == rhs_spacers(base@, hunks@, k as int),
                lhs@ == lhs_spacers(base@, hunks@, lhs_max_row, k as int),
                icons@ == icons_of(base@, hunks@.take(k as int), diff_kind),
            decreases hunks.len() - k,
        {
            let hunk = hunks[k];
            assert(hunk_in_range(base@, hunks@, k as int));
            let rhs_count: i64 = hunk.row_end as i64 - hunk.row_start as i64;
            let lhs_count: i64 = count_lhs_lines(base, &hunk);
            let diff: i64 = rhs_count - lhs_count;
            if diff_kind == VsDiffKind::Unstaged {
                let height: i64 = if rhs_count >= lhs_count { rhs_count } else { lhs_count };
                let spacer: i64 = if diff < 0 { -diff } else { 0 };
                icons.push(
                    HunkIconInfo {
                        rhs_start_row: hunk.row_start,
                        hunk_height: height as u32,
                        rhs_spacer_height: spacer as u32,
                    },
                );
            }
            if diff > 0 {
                lhs.push(make_lhs_spacer(hunk.row_start, offset, lhs_count, diff, lhs_max_row));
            } else if diff < 0 {
                rhs.push(make_rhs_spacer(hunk.row_start, diff));
            }
            offset = offset + diff;
            k = k + 1;
            assert(icons@ =~= icons_of(base@, hunks@.take(k as int), diff_kind));
        }
        assert(hunks@.take(k as int) =~= hunks@);
        AlignmentBlocks { rhs, lhs, icons }
    }

    /// The title of the tab: the name of the file, and the version on the right side.
    pub open spec fn tab_title(self) -> Seq<char> {
        (match self.file_path {
            Some(name) => name@,
            None => "untitled"@,
        }) + " "@ + (match self.diff_kind {
            VsDiffKind::Staged => "(Index)"@,
            VsDiffKind::Unstaged => "(Working Tree)"@,
        })
    }

    /// The title of the tab.
    pub fn tab_content_text(&self) -> (r: String)
        ensures
            r@ == self.tab_title(),
    {
        let suffix = match self.diff_kind {
            VsDiffKind::Staged => "(Index)",
            VsDiffKind::Unstaged => "(Working Tree)",
        };
        match &self.file_path {
            Some(name) => join3(name, " ", suffix),
            None => join3("untitled", " ", suffix),
        }
    }

    /// The tooltip of the tab.
    pub fn tab_tooltip_text(&self) -> (r: Option<String>)
        ensures
            r == self.file_path,
    {
        self.file_path.clone()
    }

    /// The event that is reported when the diff is opened.
    pub fn telemetry_event_text(&self) -> (r: Option<&'static str>)
        ensures
            r == Some("VS File Diff Opened"),
    {
        Some("VS File Diff Opened")
    }

    /// The path above the diff. The right side of a staged diff has no file of its own, so
    /// its path is shown instead.
    pub fn breadcrumbs(&self) -> (r: Breadcrumbs)
        ensures
            match self.diff_kind {
                VsDiffKind::Unstaged => r is OfRhsEditor,
                VsDiffKind::Staged => match self.project_path {
                    Some(path) => r == (Breadcrumbs::Text { text: path.path }),
                    None => r is Nothing,
                },
            },
    {
        match self.diff_kind {
            VsDiffKind::Unstaged => Breadcrumbs::OfRhsEditor,
            VsDiffKind::Staged => match &self.project_path {
                Some(path) => Breadcrumbs::Text { text: path.path.clone() },
                None => Breadcrumbs::Nothing,
            },
        }
    }
}

} // verus!
