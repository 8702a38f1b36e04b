//! What the spacer blocks achieve.

use crate::alignment::{base_bytes, base_slice, clip_row, extra_offset, highlight_in_range,
    highlights_in_range, hunk_icon, hunk_in_range, hunks_in_range, lhs_end, lhs_highlight,
    lhs_highlights, lhs_lines, lhs_spacer, lhs_spacers, lhs_start, line_count, line_diff,
    newline_count, rhs_lines, rhs_spacer, rhs_spacers, DiffHunk, RowRange, SpacerBlock};
use crate::vs_file_diff_view::{icons_of, VsDiffKind};
use vstd::prelude::*;
use vstd::utf8::*;

verus! {

/// Spacer `block` stands above row `row`.
pub open spec fn stands_above(block: SpacerBlock, row: int) -> bool {
    match block.below_row {
        Some(below) => below < row,
        None => true,
    }
}

/// How many spacer rows stand above row `row`.
pub open spec fn height_above(blocks: Seq<SpacerBlock>, row: int) -> nat
    decreases blocks.len(),
{
    if blocks.len() == 0 {
        0
    } else {
        height_above(blocks.drop_last(), row) + if stands_above(blocks.last(), row) {
            blocks.last().height as nat
        } else {
            0
        }
    }
}

/// The display row of row `row` of a text between whose rows `blocks` stand.
pub open spec fn display_row(blocks: Seq<SpacerBlock>, row: int) -> int {
    row + height_above(blocks, row)
}

/// The hunks come in the order of the text and do not overlap.
pub open spec fn hunks_ordered(hunks: Seq<DiffHunk>) -> bool {
    &&& forall|i: int| 0 <= i < hunks.len() ==> (#[trigger] hunks[i]).row_start <= hunks[i].row_end
    &&& forall|i: int, j: int|
        0 <= i < j < hunks.len() ==> (#[trigger] hunks[i]).row_end <= (#[trigger] hunks[j]).row_start
}

/// Row `row` of the new text stands behind the first `k` hunks and before the others.
pub open spec fn between_hunks(hunks: Seq<DiffHunk>, k: int, row: int) -> bool {
    &&& 0 <= k <= hunks.len()
    &&& 0 <= row
    &&& k > 0 ==> hunks[k - 1].row_end <= row
    &&& k < hunks.len() ==> row < hunks[k].row_start
}

/// No difference in rows is too large for a row number.
pub open spec fn diffs_fit(base: Seq<u8>, hunks: Seq<DiffHunk>) -> bool {
    forall|k: int|
        0 <= k < hunks.len() ==> -u32::MAX <= #[trigger] line_diff(base, hunks[k]) <= u32::MAX
}

/// The rows that the first `n` hunks add to the left side as spacers.
pub open spec fn added(base: Seq<u8>, hunks: Seq<DiffHunk>, n: int) -> int
    decreases n,
{
    if n <= 0 {
        0
    } else {
        let diff = line_diff(base, hunks[n - 1]);
        added(base, hunks, n - 1) + if diff > 0 { diff } else { 0 }
    }
}

/// The rows that the first `n` hunks add to the right side as spacers.
pub open spec fn removed(base: Seq<u8>, hunks: Seq<DiffHunk>, n: int) -> int
    decreases n,
{
    if n <= 0 {
        0
    } else {
        let diff = line_diff(base, hunks[n - 1]);
        removed(base, hunks, n - 1) + if diff < 0 { -diff } else { 0 }
    }
}

proof fn lemma_offset_is_added_less_removed(base: Seq<u8>, hunks: Seq<DiffHunk>, n: int)
    ensures
        extra_offset(base, hunks, n) == added(base, hunks, n) - removed(base, hunks, n),
    decreases n,
{
    if n > 0 {
        lemma_offset_is_added_less_removed(base, hunks, n - 1);
    }
}

/// On the left side too, a hunk ends before the next one begins.
proof fn lemma_lhs_ordered(base: Seq<u8>, hunks: Seq<DiffHunk>, i: int, j: int)
    requires
        hunks_ordered(hunks),
        0 <= i < j < hunks.len(),
    ensures
        0 <= lhs_start(base, hunks, i) <= lhs_end(base, hunks, i) <= lhs_start(base, hunks, j),
    decreases j,
{
    lemma_lhs_start_is_a_row(base, hunks, i);
    if i + 1 < j {
        lemma_lhs_ordered(base, hunks, i, j - 1);
    }
    assert(extra_offset(base, hunks, j) == extra_offset(base, hunks, j - 1) + line_diff(base, hunks[j - 1]));
    assert(hunks[j - 1].row_end <= hunks[j].row_start);
}

proof fn lemma_lhs_start_is_a_row(base: Seq<u8>, hunks: Seq<DiffHunk>, i: int)
    requires
        hunks_ordered(hunks),
        0 <= i < hunks.len(),
    ensures
        0 <= lhs_start(base, hunks, i),
    decreases i,
{
    if i > 0 {
        lemma_lhs_start_is_a_row(base, hunks, i - 1);
        assert(hunks[i - 1].row_end <= hunks[i].row_start);
        assert(extra_offset(base, hunks, i) == extra_offset(base, hunks, i - 1) + line_diff(base, hunks[i - 1]));
    }
}

/// The left row that stands beside an unchanged right row lies behind the left rows of
/// the hunks before it and before those of the hunks behind it.
proof fn lemma_lhs_between(base: Seq<u8>, hunks: Seq<DiffHunk>, k: int, row: int, j: int)
    requires
        hunks_ordered(hunks),
        between_hunks(hunks, k, row),
        0 <= j < hunks.len(),
    ensures
        j < k ==> lhs_end(base, hunks, j) <= row - extra_offset(base, hunks, k),
        j >= k ==> row - extra_offset(base, hunks, k) < lhs_start(base, hunks, j),
{
    if j < k {
        assert(extra_offset(base, hunks, k) == extra_offset(base, hunks, k - 1) + line_diff(base, hunks[k - 1]));
        if j < k - 1 {
            lemma_lhs_ordered(base, hunks, j, k - 1);
        }
    } else if j > k {
        lemma_lhs_ordered(base, hunks, k, j);
    }
}

proof fn lemma_lhs_row_is_a_row(base: Seq<u8>, hunks: Seq<DiffHunk>, k: int, row: int)
    requires
        hunks_ordered(hunks),
        between_hunks(hunks, k, row),
    ensures
        0 <= row - extra_offset(base, hunks, k),
{
    if k > 0 {
        lemma_lhs_start_is_a_row(base, hunks, k - 1);
        lemma_lhs_between(base, hunks, k, row, k - 1);
    }
}

/// The left spacers of the first `n` hunks that stand above the left row beside an
/// unchanged right row are those of the hunks before it.
proof fn lemma_lhs_height(
    base: Seq<u8>,
    hunks: Seq<DiffHunk>,
    lhs_max_row: u32,
    k: int,
    row: int,
    n: int,
)
    requires
        hunks_ordered(hunks),
        diffs_fit(base, hunks),
        between_hunks(hunks, k, row),
        0 <= n <= hunks.len(),
        lhs_row_shows(base, hunks, lhs_max_row, k, row),
    ensures
        height_above(
            lhs_spacers(base, hunks, lhs_max_row, n),
            row - extra_offset(base, hunks, k),
        ) == added(base, hunks, if n <= k { n } else { k }),
    decreases n,
{
    let lhs_row = row - extra_offset(base, hunks, k);
    if n > 0 {
        let j = n - 1;
        lemma_lhs_height(base, hunks, lhs_max_row, k, row, j);
        lemma_lhs_between(base, hunks, k, row, j);
        lemma_lhs_start_is_a_row(base, hunks, j);
        lemma_lhs_row_is_a_row(base, hunks, k, row);
        let diff = line_diff(base, hunks[j]);
        if diff > 0 {
            let before = lhs_spacers(base, hunks, lhs_max_row, j);
            let block = lhs_spacer(base, hunks, lhs_max_row, j);
            assert(before.push(block).drop_last() =~= before);
            assert(block.height == diff);
            assert(j >= k ==> lhs_spacer_placed(base, hunks, lhs_max_row, lhs_row, j));
            assert(clip_row(lhs_end(base, hunks, j)) == lhs_end(base, hunks, j));
        }
    }
}

/// Left row `lhs_row` has the spacer of hunk `j`, which stands behind it, below it. It does
/// not where it is the last row and the spacer belongs behind it, unless it is the only one.
pub open spec fn lhs_spacer_placed(
    base: Seq<u8>,
    hunks: Seq<DiffHunk>,
    lhs_max_row: u32,
    lhs_row: int,
    j: int,
) -> bool {
    &&& lhs_end(base, hunks, j) <= lhs_max_row || lhs_row < lhs_max_row || lhs_max_row == 0
    &&& lhs_end(base, hunks, j) <= u32::MAX
}

/// The left row beside unchanged right row `row` is a row of the left text, and every
/// left spacer behind it is placed for it. In a line diff this is always so: see
/// [`law_line_diffs_are_aligned`].
pub open spec fn lhs_row_shows(
    base: Seq<u8>,
    hunks: Seq<DiffHunk>,
    lhs_max_row: u32,
    k: int,
    row: int,
) -> bool {
    let lhs_row = row - extra_offset(base, hunks, k);
    &&& lhs_row <= lhs_max_row
    &&& forall|j: int|
        k <= j < hunks.len() && #[trigger] line_diff(base, hunks[j]) > 0 ==> lhs_spacer_placed(
            base,
            hunks,
            lhs_max_row,
            lhs_row,
            j,
        )
}

/// The right spacers of the first `n` hunks that stand above an unchanged right row are
/// those of the hunks before it.
proof fn lemma_rhs_height(base: Seq<u8>, hunks: Seq<DiffHunk>, k: int, row: int, n: int)
    requires
        hunks_ordered(hunks),
        diffs_fit(base, hunks),
        between_hunks(hunks, k, row),
        0 <= n <= hunks.len(),
    ensures
        height_above(rhs_spacers(base, hunks, n), row) == removed(
            base,
            hunks,
            if n <= k { n } else { k },
        ),
    decreases n,
{
    if n > 0 {
        let j = n - 1;
        lemma_rhs_height(base, hunks, k, row, j);
        let diff = line_diff(base, hunks[j]);
        if j < k - 1 {
            assert(hunks[j].row_end <= hunks[k - 1].row_start);
        }
        if j > k {
            assert(hunks[k].row_end <= hunks[j].row_start);
        }
        if diff < 0 {
            let before = rhs_spacers(base, hunks, j);
            let block = rhs_spacer(base, hunks[j]);
            assert(before.push(block).drop_last() =~= before);
            assert(block.height == -diff);
        }
    }
}

/// With the spacer blocks in place, every unchanged row of the new text is displayed
/// beside the row of the base text that it equals.
pub proof fn law_unchanged_rows_side_by_side(
    base: Seq<u8>,
    hunks: Seq<DiffHunk>,
    lhs_max_row: u32,
    k: int,
    row: int,
)
    requires
        hunks_ordered(hunks),
        diffs_fit(base, hunks),
        between_hunks(hunks, k, row),
        lhs_row_shows(base, hunks, lhs_max_row, k, row),
    ensures
        display_row(rhs_spacers(base, hunks, hunks.len() as int), row) == display_row(
            lhs_spacers(base, hunks, lhs_max_row, hunks.len() as int),
            row - extra_offset(base, hunks, k),
        ),
{
    lemma_lhs_height(base, hunks, lhs_max_row, k, row, hunks.len() as int);
    lemma_rhs_height(base, hunks, k, row, hunks.len() as int);
    lemma_offset_is_added_less_removed(base, hunks, k);
}

/// The two sides of a hunk, each with its spacer, are equally high: as high as the icons
/// of the hunk say. At most one side has a spacer.
pub proof fn law_hunk_sides_equally_high(
    base: Seq<u8>,
    hunks: Seq<DiffHunk>,
    lhs_max_row: u32,
    k: int,
)
    requires
        0 <= k < hunks.len(),
        hunks_ordered(hunks),
        diffs_fit(base, hunks),
        lhs_lines(base, hunks[k]) <= u32::MAX,
    ensures
        ({
            let diff = line_diff(base, hunks[k]);
            let left = lhs_lines(base, hunks[k]) + if diff > 0 {
                lhs_spacer(base, hunks, lhs_max_row, k).height as int
            } else {
                0
            };
            let right = rhs_lines(hunks[k]) + if diff < 0 {
                rhs_spacer(base, hunks[k]).height as int
            } else {
                0
            };
            left == right && right == hunk_icon(base, hunks[k]).hunk_height
        }),
{
}

/// The hunks behind hunk `k` that have a right spacer begin at another right row than it.
/// Hunks with an unchanged row between them do.
pub open spec fn icons_are_placed(base: Seq<u8>, hunks: Seq<DiffHunk>, k: int) -> bool {
    forall|j: int|
        k < j < hunks.len() && #[trigger] line_diff(base, hunks[j]) < 0 ==> hunks[k].row_start
            < hunks[j].row_start
}

proof fn lemma_rhs_height_at_start(base: Seq<u8>, hunks: Seq<DiffHunk>, k: int, n: int)
    requires
        hunks_ordered(hunks),
        diffs_fit(base, hunks),
        0 <= k < hunks.len(),
        0 <= n <= hunks.len(),
        icons_are_placed(base, hunks, k),
    ensures
        height_above(rhs_spacers(base, hunks, n), hunks[k].row_start as int) == removed(
            base,
            hunks,
            if n <= k + 1 { n } else { k + 1 },
        ),
    decreases n,
{
    if n > 0 {
        let j = n - 1;
        lemma_rhs_height_at_start(base, hunks, k, j);
        let diff = line_diff(base, hunks[j]);
        if j < k {
            assert(hunks[j].row_end <= hunks[k].row_start);
        }
        if diff < 0 {
            let before = rhs_spacers(base, hunks, j);
            let block = rhs_spacer(base, hunks[j]);
            assert(before.push(block).drop_last() =~= before);
            assert(block.height == -diff);
        }
    }
}

proof fn lemma_removed_is_a_height(base: Seq<u8>, hunks: Seq<DiffHunk>, n: int)
    ensures
        0 <= removed(base, hunks, n),
    decreases n,
{
    if n > 0 {
        lemma_removed_is_a_height(base, hunks, n - 1);
    }
}

/// The icons of a hunk reach from the display row at which the hunk begins on both sides
/// to the one at which it ends on both sides, where they begin the height of the hunk's
/// spacer above the display row of its first right row.
pub proof fn law_icons_cover_hunk(base: Seq<u8>, hunks: Seq<DiffHunk>, k: int)
    requires
        hunks_ordered(hunks),
        diffs_fit(base, hunks),
        0 <= k < hunks.len(),
        lhs_lines(base, hunks[k]) <= u32::MAX,
        icons_are_placed(base, hunks, k),
    ensures
        ({
            let icon = hunk_icon(base, hunks[k]);
            let top = display_row(
                rhs_spacers(base, hunks, hunks.len() as int),
                icon.rhs_start_row as int,
            ) - icon.rhs_spacer_height;
            &&& 0 <= top
            &&& top == hunks[k].row_start + removed(base, hunks, k)
            &&& top == lhs_start(base, hunks, k) + added(base, hunks, k)
            &&& top + icon.hunk_height == hunks[k].row_end + removed(base, hunks, k + 1)
            &&& top + icon.hunk_height == lhs_end(base, hunks, k) + added(base, hunks, k + 1)
        }),
{
    lemma_rhs_height_at_start(base, hunks, k, hunks.len() as int);
    lemma_removed_is_a_height(base, hunks, k);
    lemma_offset_is_added_less_removed(base, hunks, k);
    assert(line_diff(base, hunks[k]) <= u32::MAX);
}

/// Whether one of `ranges` holds row `row`.
pub open spec fn covers(ranges: Seq<RowRange>, row: int) -> bool {
    exists|i: int| 0 <= i < ranges.len() && (#[trigger] ranges[i]).start <= row < ranges[i].end
}

/// Row `row` is a left row of one of the first `n` hunks.
pub open spec fn in_lhs_of_hunk(base: Seq<u8>, hunks: Seq<DiffHunk>, n: int, row: int) -> bool {
    exists|k: int|
        0 <= k < n && #[trigger] lhs_start(base, hunks, k) <= row < lhs_end(base, hunks, k)
}

proof fn lemma_highlights(
    base: Seq<u8>,
    hunks: Seq<DiffHunk>,
    lhs_max_row: u32,
    row: int,
    n: int,
)
    requires
        hunks_ordered(hunks),
        0 <= n <= hunks.len(),
        0 <= row <= lhs_max_row < u32::MAX,
        forall|k: int| 0 <= k < hunks.len() ==> #[trigger] lhs_end(base, hunks, k) <= u32::MAX,
    ensures
        covers(lhs_highlights(base, hunks, lhs_max_row, n), row) <==> in_lhs_of_hunk(
            base,
            hunks,
            n,
            row,
        ),
    decreases n,
{
    if n > 0 {
        let j = n - 1;
        lemma_highlights(base, hunks, lhs_max_row, row, j);
        lemma_lhs_start_is_a_row(base, hunks, j);
        let before = lhs_highlights(base, hunks, lhs_max_row, j);
        let after = lhs_highlights(base, hunks, lhs_max_row, n);
        let here = lhs_start(base, hunks, j) <= row < lhs_end(base, hunks, j);
        assert(lhs_end(base, hunks, j) <= u32::MAX);
        if lhs_lines(base, hunks[j]) > 0 {
            let range = lhs_highlight(base, hunks, lhs_max_row, j);
            assert(after == before.push(range));
            assert(range.start <= row < range.end <==> here);
            assert(covers(after, row) <==> covers(before, row) || here) by {
                if covers(before, row) {
                    let i = choose|i: int|
                        0 <= i < before.len() && (#[trigger] before[i]).start <= row < before[i].end;
                    assert(after[i] == before[i]);
                }
                if here {
                    assert(after[before.len() as int] == range);
                }
                if covers(after, row) {
                    let i = choose|i: int|
                        0 <= i < after.len() && (#[trigger] after[i]).start <= row < after[i].end;
                    if i < before.len() {
                        assert(after[i] == before[i]);
                    }
                }
            }
        }
        if in_lhs_of_hunk(base, hunks, n, row) {
            let k = choose|k: int|
                0 <= k < n && #[trigger] lhs_start(base, hunks, k) <= row < lhs_end(base, hunks, k);
            if k < j {
                assert(in_lhs_of_hunk(base, hunks, j, row));
            }
        }
        if in_lhs_of_hunk(base, hunks, j, row) {
            let k = choose|k: int|
                0 <= k < j && #[trigger] lhs_start(base, hunks, k) <= row < lhs_end(base, hunks, k);
            assert(in_lhs_of_hunk(base, hunks, n, row));
        }
    }
}

/// The rows of the base text that are highlighted are those that a hunk changes or
/// deletes, and no others.
pub proof fn law_highlights_are_the_changed_rows(
    base: Seq<u8>,
    hunks: Seq<DiffHunk>,
    lhs_max_row: u32,
    row: int,
)
    requires
        hunks_ordered(hunks),
        0 <= row <= lhs_max_row < u32::MAX,
        forall|k: int| 0 <= k < hunks.len() ==> #[trigger] lhs_end(base, hunks, k) <= u32::MAX,
    ensures
        covers(lhs_highlights(base, hunks, lhs_max_row, hunks.len() as int), row)
            <==> in_lhs_of_hunk(base, hunks, hunks.len() as int, row),
{
    lemma_highlights(base, hunks, lhs_max_row, row, hunks.len() as int);
}

/// A diff without hunks needs no spacers.
pub proof fn law_no_hunks_no_spacers(base: Seq<u8>, lhs_max_row: u32)
    ensures
        lhs_spacers(base, Seq::empty(), lhs_max_row, 0) == Seq::<SpacerBlock>::empty(),
        rhs_spacers(base, Seq::empty(), 0) == Seq::<SpacerBlock>::empty(),
{
}

/// There is at most one spacer per hunk, so their number does not grow with the number of
/// unchanged lines.
pub proof fn law_one_spacer_per_hunk(
    base: Seq<u8>,
    hunks: Seq<DiffHunk>,
    lhs_max_row: u32,
    n: int,
)
    requires
        0 <= n <= hunks.len(),
    ensures
        lhs_spacers(base, hunks, lhs_max_row, n).len() + rhs_spacers(base, hunks, n).len() <= n,
    decreases n,
{
    if n > 0 {
        law_one_spacer_per_hunk(base, hunks, lhs_max_row, n - 1);
    }
}

/// The number of line feed characters in `text`.
pub open spec fn newline_chars(text: Seq<char>) -> nat
    decreases text.len(),
{
    if text.len() == 0 {
        0
    } else {
        (if text[0] == '\n' { 1nat } else { 0nat }) + newline_chars(text.drop_first())
    }
}

proof fn lemma_newline_count_concat(a: Seq<u8>, b: Seq<u8>)
    ensures
        newline_count(a + b) == newline_count(a) + newline_count(b),
    decreases b.len(),
{
    if b.len() == 0 {
        assert(a + b =~= a);
    } else {
        assert((a + b).drop_last() =~= a + b.drop_last());
        lemma_newline_count_concat(a, b.drop_last());
    }
}

proof fn lemma_newline_in_scalar(c: char)
    ensures
        newline_count(encode_scalar(c as u32)) == if c == '\n' { 1nat } else { 0nat },
{
    let v = c as u32;
    if v <= 0x7F {
        assert((v & 0x7F) as u8 == 10u8 <==> v == 10u32) by (bit_vector)
            requires
                v <= 0x7F,
        ;
    }
    assert(0xC0u8 | ((v >> 6) & 0x1F) as u8 != 10u8) by (bit_vector);
    assert(0xE0u8 | ((v >> 12) & 0x0F) as u8 != 10u8) by (bit_vector);
    assert(0xF0u8 | ((v >> 18) & 0x7) as u8 != 10u8) by (bit_vector);
    assert(0x80u8 | (v & 0x3F) as u8 != 10u8) by (bit_vector);
    assert(0x80u8 | ((v >> 6) & 0x3F) as u8 != 10u8) by (bit_vector);
    assert(0x80u8 | ((v >> 12) & 0x3F) as u8 != 10u8) by (bit_vector);
    reveal_with_fuel(newline_count, 5);
}

/// Counting line feeds among the bytes of a text is counting them among its characters.
pub proof fn law_newline_bytes_are_newline_chars(text: Seq<char>)
    ensures
        newline_count(encode_utf8(text)) == newline_chars(text),
    decreases text.len(),
{
    if text.len() > 0 {
        law_newline_bytes_are_newline_chars(text.drop_first());
        lemma_newline_in_scalar(text[0]);
        lemma_newline_count_concat(
            encode_scalar(text[0] as u32),
            encode_utf8(text.drop_first()),
        );
    }
}

proof fn lemma_line_count_bounded(text: Seq<u8>)
    ensures
        newline_count(text) <= text.len(),
        line_count(text) <= text.len(),
    decreases text.len(),
{
    if text.len() > 0 {
        lemma_line_count_bounded(text.drop_last());
    }
}

proof fn lemma_small_offset(base: Seq<u8>, hunks: Seq<DiffHunk>, n: int)
    requires
        base.len() <= u32::MAX,
        0 <= n <= hunks.len(),
    ensures
        -(0x2_0000_0000 * n) <= extra_offset(base, hunks, n) <= 0x1_0000_0000 * n,
    decreases n,
{
    if n > 0 {
        lemma_small_offset(base, hunks, n - 1);
        lemma_line_count_bounded(base_slice(base, hunks[n - 1]));
    }
}

/// How many of the bytes of `text` are line feeds, however it is put together.
pub proof fn law_newlines_are_counted(text: Seq<u8>, front: Seq<u8>, back: Seq<u8>)
    ensures
        newline_count(text) == text.filter(|b: u8| b == 10u8).len(),
        newline_count(front + back) == newline_count(front) + newline_count(back),
    decreases text.len(),
{
    reveal(Seq::filter);
    if text.len() > 0 {
        law_newlines_are_counted(text.drop_last(), front, back);
    }
    lemma_newline_count_concat(front, back);
}

/// The row of the line that byte `at` of `base` lies in, or at which it begins.
pub open spec fn row_at(base: Seq<u8>, at: int) -> int {
    newline_count(base.take(at)) as int
}

/// A line of `base` begins at byte `at`.
pub open spec fn line_begins(base: Seq<u8>, at: int) -> bool {
    at == 0 || base[at - 1] == 10u8
}

/// The left rows of a hunk are as many as there are line feeds in its bytes, blank lines
/// and all, and one more exactly where its last line has none. Of bytes that the text does
/// not have, none counts.
pub proof fn law_left_rows_of_a_hunk(base: Seq<u8>, hunk: DiffHunk)
    ensures
        ({
            let end = if hunk.base_end <= base.len() {
                hunk.base_end as int
            } else {
                base.len() as int
            };
            let start = if hunk.base_start <= end { hunk.base_start as int } else { end };
            &&& lhs_lines(base, hunk) == row_at(base, end) - row_at(base, start) + if start < end
                && base[end - 1] != 10u8 {
                1int
            } else {
                0int
            }
            &&& start < end && line_begins(base, end) ==> row_at(base, start) + lhs_lines(base, hunk)
                == row_at(base, end)
        }),
{
    let end = if hunk.base_end <= base.len() { hunk.base_end as int } else { base.len() as int };
    let start = if hunk.base_start <= end { hunk.base_start as int } else { end };
    assert(base.take(end) =~= base.take(start) + base.subrange(start, end));
    lemma_newline_count_concat(base.take(start), base.subrange(start, end));
}

/// The last line of a hunk's bytes has no line feed.
pub open spec fn ends_within_line(base: Seq<u8>, hunk: DiffHunk) -> bool {
    hunk.base_start < hunk.base_end && base[hunk.base_end - 1] != 10u8
}

/// How many left rows a hunk of whole lines has.
pub open spec fn left_rows(base: Seq<u8>, hunk: DiffHunk) -> int {
    row_at(base, hunk.base_end as int) - row_at(base, hunk.base_start as int)
        + if ends_within_line(base, hunk) { 1int } else { 0int }
}

/// The left row behind a hunk of whole lines.
pub open spec fn left_row_behind(base: Seq<u8>, hunk: DiffHunk) -> int {
    row_at(base, hunk.base_start as int) + left_rows(base, hunk)
}

/// Hunk `k` replaces whole lines of `base`, and as many unchanged lines stand before it, from
/// the hunk before it or the beginning on, in the new text as in `base`.
pub open spec fn is_line_hunk(base: Seq<u8>, hunks: Seq<DiffHunk>, k: int) -> bool {
    let hunk = hunks[k];
    &&& hunk.base_start <= hunk.base_end <= base.len()
    &&& line_begins(base, hunk.base_start as int)
    &&& hunk.base_end == base.len() || line_begins(base, hunk.base_end as int)
    &&& if k == 0 {
        hunk.row_start == row_at(base, hunk.base_start as int)
    } else {
        &&& hunks[k - 1].base_end <= hunk.base_start
        &&& hunk.row_start - hunks[k - 1].row_end == row_at(base, hunk.base_start as int) - row_at(
            base,
            hunks[k - 1].base_end as int,
        )
    }
}

/// `hunks` are those of a line diff against `base`, whose last row is `lhs_max_row`.
pub open spec fn is_line_diff(base: Seq<u8>, hunks: Seq<DiffHunk>, lhs_max_row: u32) -> bool {
    &&& hunks_ordered(hunks)
    &&& lhs_max_row == newline_count(base)
    &&& forall|k: int| 0 <= k < hunks.len() ==> #[trigger] is_line_hunk(base, hunks, k)
}

/// The row of `base` that unchanged row `row` of the new text equals, where the first `k`
/// hunks stand before it: both are as many rows behind the last of these hunks.
pub open spec fn matching_row(base: Seq<u8>, hunks: Seq<DiffHunk>, k: int, row: int) -> int {
    if k == 0 {
        row
    } else {
        row_at(base, hunks[k - 1].base_end as int) + (row - hunks[k - 1].row_end)
    }
}

proof fn lemma_line_diff_hunk(base: Seq<u8>, hunks: Seq<DiffHunk>, lhs_max_row: u32, k: int)
    requires
        is_line_diff(base, hunks, lhs_max_row),
        0 <= k < hunks.len(),
    ensures
        lhs_start(base, hunks, k) == row_at(base, hunks[k].base_start as int),
        lhs_end(base, hunks, k) == left_row_behind(base, hunks[k]),
        lhs_lines(base, hunks[k]) == left_rows(base, hunks[k]),
        0 <= lhs_start(base, hunks, k) <= lhs_max_row,
        lhs_end(base, hunks, k) <= lhs_max_row + 1,
        lhs_lines(base, hunks[k]) <= lhs_max_row + 1,
    decreases k,
{
    let hunk = hunks[k];
    assert(is_line_hunk(base, hunks, k));
    law_left_rows_of_a_hunk(base, hunk);
    let tail = base.skip(hunk.base_end as int);
    assert(base =~= base.take(hunk.base_end as int) + tail);
    lemma_newline_count_concat(base.take(hunk.base_end as int), tail);
    if k > 0 {
        lemma_line_diff_hunk(base, hunks, lhs_max_row, k - 1);
        assert(is_line_hunk(base, hunks, k - 1));
        assert(extra_offset(base, hunks, k) == extra_offset(base, hunks, k - 1) + line_diff(
            base,
            hunks[k - 1],
        ));
    }
}

/// With the spacer blocks of a line diff in place, every unchanged row of the new text is
/// displayed beside the row of the base text that it equals, wherever the hunks are. Behind a
/// hunk that ends within the last line of the base text, that text has no rows.
pub proof fn law_line_diffs_are_aligned(
    base: Seq<u8>,
    hunks: Seq<DiffHunk>,
    lhs_max_row: u32,
    k: int,
    row: int,
)
    requires
        is_line_diff(base, hunks, lhs_max_row),
        lhs_max_row < u32::MAX,
        between_hunks(hunks, k, row),
        k > 0 ==> line_begins(base, hunks[k - 1].base_end as int),
        matching_row(base, hunks, k, row) <= lhs_max_row,
    ensures
        display_row(rhs_spacers(base, hunks, hunks.len() as int), row) == display_row(
            lhs_spacers(base, hunks, lhs_max_row, hunks.len() as int),
            matching_row(base, hunks, k, row),
        ),
        matching_row(base, hunks, k, row) == row - extra_offset(base, hunks, k),
{
    let lhs_row = row - extra_offset(base, hunks, k);
    if k > 0 {
        lemma_line_diff_hunk(base, hunks, lhs_max_row, k - 1);
        assert(extra_offset(base, hunks, k) == extra_offset(base, hunks, k - 1) + line_diff(
            base,
            hunks[k - 1],
        ));
    }
    assert(lhs_row == matching_row(base, hunks, k, row));
    assert forall|j: int| 0 <= j < hunks.len() implies -u32::MAX <= #[trigger] line_diff(
        base,
        hunks[j],
    ) <= u32::MAX by {
        lemma_line_diff_hunk(base, hunks, lhs_max_row, j);
    }
    assert forall|j: int|
        k <= j < hunks.len() && #[trigger] line_diff(base, hunks[j]) > 0 implies lhs_spacer_placed(
        base,
        hunks,
        lhs_max_row,
        lhs_row,
        j,
    ) by {
        lemma_line_diff_hunk(base, hunks, lhs_max_row, j);
        lemma_lhs_between(base, hunks, k, row, j);
    }
    law_unchanged_rows_side_by_side(base, hunks, lhs_max_row, k, row);
}

/// One hunk more adds one spacer at most: on the left side where the right side of the hunk
/// is longer, behind its left rows, and on the right side where the left side is longer,
/// before its right rows. It is as high as the one side is longer. What belongs before the
/// first row stands above it; what belongs behind the last left row stands above that row.
pub proof fn law_next_hunk_adds_its_spacer(
    base: Seq<u8>,
    hunks: Seq<DiffHunk>,
    lhs_max_row: u32,
    n: int,
)
    requires
        0 <= n < hunks.len(),
    ensures
        ({
            let hunk = hunks[n];
            let left = lhs_lines(base, hunk) as int;
            let right = hunk.row_end - hunk.row_start;
            let behind = hunk.row_start - extra_offset(base, hunks, n) + left;
            let before = lhs_spacers(base, hunks, lhs_max_row, n);
            let after = lhs_spacers(base, hunks, lhs_max_row, n + 1);
            &&& extra_offset(base, hunks, 0) == 0
            &&& lhs_spacers(base, hunks, lhs_max_row, 0).len() == 0
            &&& rhs_spacers(base, hunks, 0).len() == 0
            &&& extra_offset(base, hunks, n + 1) == extra_offset(base, hunks, n) + right - left
            &&& right <= left ==> after == before
            &&& left < right && behind <= u32::MAX ==> {
                &&& after.len() == before.len() + 1
                &&& after.drop_last() == before
                &&& after.last().height == right - left
                &&& behind <= 0 ==> after.last().below_row is None
                &&& 0 < behind <= lhs_max_row ==> after.last().below_row == Some(
                    (behind - 1) as u32,
                )
                &&& 0 < behind && lhs_max_row < behind ==> after.last().below_row == Some(
                    if lhs_max_row > 0 { (lhs_max_row - 1) as u32 } else { 0u32 },
                )
            }
        }),
        ({
            let hunk = hunks[n];
            let left = lhs_lines(base, hunk) as int;
            let right = hunk.row_end - hunk.row_start;
            let before = rhs_spacers(base, hunks, n);
            let after = rhs_spacers(base, hunks, n + 1);
            &&& left <= right ==> after == before
            &&& right < left && left - right <= u32::MAX ==> {
                &&& after.len() == before.len() + 1
                &&& after.drop_last() == before
                &&& after.last().height == left - right
                &&& hunk.row_start == 0 ==> after.last().below_row is None
                &&& hunk.row_start > 0 ==> after.last().below_row == Some(
                    (hunk.row_start - 1) as u32,
                )
            }
        }),
{
    let hunk = hunks[n];
    let left = lhs_spacers(base, hunks, lhs_max_row, n);
    let right = rhs_spacers(base, hunks, n);
    assert(left.push(lhs_spacer(base, hunks, lhs_max_row, n)).drop_last() =~= left);
    assert(right.push(rhs_spacer(base, hunk)).drop_last() =~= right);
}

/// The left rows of one hunk more are highlighted where it has any, from its first left row
/// to its last, as far as the left side goes.
pub proof fn law_next_hunk_highlights_its_rows(
    base: Seq<u8>,
    hunks: Seq<DiffHunk>,
    lhs_max_row: u32,
    n: int,
)
    requires
        0 <= n < hunks.len(),
        lhs_max_row < u32::MAX,
    ensures
        ({
            let left = lhs_lines(base, hunks[n]) as int;
            let start = hunks[n].row_start - extra_offset(base, hunks, n);
            let first = if start > 0 { start } else { 0 };
            let before = lhs_highlights(base, hunks, lhs_max_row, n);
            let after = lhs_highlights(base, hunks, lhs_max_row, n + 1);
            &&& lhs_highlights(base, hunks, lhs_max_row, 0).len() == 0
            &&& left == 0 ==> after == before
            &&& left > 0 && first + left <= u32::MAX ==> {
                &&& after.len() == before.len() + 1
                &&& after.drop_last() == before
                &&& after.last().start == first
                &&& after.last().end == if first + left <= lhs_max_row {
                    first + left
                } else {
                    lhs_max_row + 1
                }
            }
        }),
{
    let before = lhs_highlights(base, hunks, lhs_max_row, n);
    assert(before.push(lhs_highlight(base, hunks, lhs_max_row, n)).drop_last() =~= before);
}

proof fn lemma_spacers_stay(
    base: Seq<u8>,
    hunks: Seq<DiffHunk>,
    lhs_max_row: u32,
    k: int,
    n: int,
)
    requires
        0 <= k < n <= hunks.len(),
    ensures
        line_diff(base, hunks[k]) > 0 ==> lhs_spacers(base, hunks, lhs_max_row, n).contains(
            lhs_spacer(base, hunks, lhs_max_row, k),
        ),
        line_diff(base, hunks[k]) < 0 ==> rhs_spacers(base, hunks, n).contains(
            rhs_spacer(base, hunks[k]),
        ),
    decreases n,
{
    let lhs = lhs_spacers(base, hunks, lhs_max_row, n);
    let rhs = rhs_spacers(base, hunks, n);
    let lhs_before = lhs_spacers(base, hunks, lhs_max_row, n - 1);
    let rhs_before = rhs_spacers(base, hunks, n - 1);
    if k == n - 1 {
        if line_diff(base, hunks[k]) > 0 {
            assert(lhs[lhs_before.len() as int] == lhs_spacer(base, hunks, lhs_max_row, k));
        }
        if line_diff(base, hunks[k]) < 0 {
            assert(rhs[rhs_before.len() as int] == rhs_spacer(base, hunks[k]));
        }
    } else {
        lemma_spacers_stay(base, hunks, lhs_max_row, k, n - 1);
        if line_diff(base, hunks[k]) > 0 {
            let i = choose|i: int|
                0 <= i < lhs_before.len() && lhs_before[i] == lhs_spacer(
                    base,
                    hunks,
                    lhs_max_row,
                    k,
                );
            assert(lhs[i] == lhs_before[i]);
        }
        if line_diff(base, hunks[k]) < 0 {
            let i = choose|i: int|
                0 <= i < rhs_before.len() && rhs_before[i] == rhs_spacer(base, hunks[k]);
            assert(rhs[i] == rhs_before[i]);
        }
    }
}

/// In a line diff, a hunk that adds rows has a spacer right behind its left rows, and a hunk
/// that takes rows away has one right before its right rows, as high as the difference.
pub proof fn law_line_diff_spacers(
    base: Seq<u8>,
    hunks: Seq<DiffHunk>,
    lhs_max_row: u32,
    k: int,
)
    requires
        is_line_diff(base, hunks, lhs_max_row),
        lhs_max_row < u32::MAX,
        0 <= k < hunks.len(),
    ensures
        ({
            let right = hunks[k].row_end - hunks[k].row_start;
            let left = left_rows(base, hunks[k]);
            let behind = left_row_behind(base, hunks[k]);
            &&& left < right && behind <= lhs_max_row ==> lhs_spacers(
                base,
                hunks,
                lhs_max_row,
                hunks.len() as int,
            ).contains(
                SpacerBlock {
                    below_row: if behind > 0 { Some((behind - 1) as u32) } else { None },
                    height: (right - left) as u32,
                },
            )
            &&& right < left ==> rhs_spacers(base, hunks, hunks.len() as int).contains(
                SpacerBlock {
                    below_row: if hunks[k].row_start > 0 {
                        Some((hunks[k].row_start - 1) as u32)
                    } else {
                        None
                    },
                    height: (left - right) as u32,
                },
            )
        }),
{
    lemma_line_diff_hunk(base, hunks, lhs_max_row, k);
    lemma_spacers_stay(base, hunks, lhs_max_row, k, hunks.len() as int);
}

/// In a line diff, the highlighted rows of the base text are exactly those of the lines that
/// lie in the bytes of a hunk.
pub proof fn law_line_diff_highlights(
    base: Seq<u8>,
    hunks: Seq<DiffHunk>,
    lhs_max_row: u32,
    row: int,
)
    requires
        is_line_diff(base, hunks, lhs_max_row),
        0 <= row <= lhs_max_row < u32::MAX,
    ensures
        covers(lhs_highlights(base, hunks, lhs_max_row, hunks.len() as int), row) <==> exists|k: int|
            0 <= k < hunks.len() && row_at(base, (#[trigger] hunks[k]).base_start as int) <= row
                < left_row_behind(base, hunks[k]),
{
    assert forall|k: int| 0 <= k < hunks.len() implies #[trigger] lhs_end(base, hunks, k)
        <= u32::MAX by {
        lemma_line_diff_hunk(base, hunks, lhs_max_row, k);
    }
    law_highlights_are_the_changed_rows(base, hunks, lhs_max_row, row);
    let n = hunks.len() as int;
    if in_lhs_of_hunk(base, hunks, n, row) {
        let k = choose|k: int|
            0 <= k < n && #[trigger] lhs_start(base, hunks, k) <= row < lhs_end(base, hunks, k);
        lemma_line_diff_hunk(base, hunks, lhs_max_row, k);
        assert(row_at(base, hunks[k].base_start as int) <= row < left_row_behind(base, hunks[k]));
    }
    if exists|k: int|
        0 <= k < hunks.len() && row_at(base, (#[trigger] hunks[k]).base_start as int) <= row
            < left_row_behind(base, hunks[k]) {
        let k = choose|k: int|
            0 <= k < hunks.len() && row_at(base, (#[trigger] hunks[k]).base_start as int) <= row
                < left_row_behind(base, hunks[k]);
        lemma_line_diff_hunk(base, hunks, lhs_max_row, k);
        assert(lhs_start(base, hunks, k) <= row < lhs_end(base, hunks, k));
    }
}

/// The icons of a diff that can be staged are one for each hunk, in order: each at the first
/// right row of its hunk, as high as the longer side, with the height of the right spacer. A
/// diff of the index has none.
pub proof fn law_icons_of_the_hunks(base: Seq<u8>, hunks: Seq<DiffHunk>, i: int)
    requires
        0 <= i < hunks.len(),
        lhs_lines(base, hunks[i]) <= u32::MAX,
        lhs_lines(base, hunks[i]) - (hunks[i].row_end - hunks[i].row_start) <= u32::MAX,
    ensures
        icons_of(base, hunks, VsDiffKind::Staged).len() == 0,
        icons_of(base, hunks, VsDiffKind::Unstaged).len() == hunks.len(),
        ({
            let icon = icons_of(base, hunks, VsDiffKind::Unstaged)[i];
            let right = hunks[i].row_end - hunks[i].row_start;
            let left = lhs_lines(base, hunks[i]) as int;
            &&& icon.rhs_start_row == hunks[i].row_start
            &&& icon.hunk_height == if right >= left { right } else { left }
            &&& icon.rhs_spacer_height == if right >= left { 0 } else { left - right }
        }),
{
}

/// A diff without a base text is one against no bytes, any other is one against the bytes of
/// its base text.
pub proof fn law_base_bytes(base_text: Option<&str>)
    ensures
        base_text is None ==> base_bytes(base_text).len() == 0,
        base_text is Some ==> base_bytes(base_text) == encode_utf8(base_text->0@),
{
}

/// The row arithmetic of texts of up to four gigabytes with up to 2^29 hunks stays in range.
pub proof fn law_ordinary_diffs_in_range(base: Seq<u8>, hunks: Seq<DiffHunk>, lhs_max_row: u32)
    requires
        base.len() <= u32::MAX,
        hunks.len() <= 0x2000_0000,
        lhs_max_row < u32::MAX,
    ensures
        hunks_in_range(base, hunks),
        highlights_in_range(base, hunks, lhs_max_row),
{
    assert forall|k: int| 0 <= k < hunks.len() implies #[trigger] hunk_in_range(base, hunks, k) by {
        lemma_small_offset(base, hunks, k);
        lemma_small_offset(base, hunks, k + 1);
        lemma_line_count_bounded(base_slice(base, hunks[k]));
    }
    assert forall|k: int| 0 <= k < hunks.len() implies #[trigger] highlight_in_range(
        base,
        hunks,
        lhs_max_row,
        k,
    ) by {
        lemma_small_offset(base, hunks, k);
        lemma_line_count_bounded(base_slice(base, hunks[k]));
    }
}

} // verus!
