//! Where spacer blocks go so that the two sides of a diff stay side by side.
//!
//! The right side shows the new text and knows the hunks; the left side shows the base
//! text. Where one side of a hunk has fewer rows than the other, a block of empty rows
//! makes up the difference.

use vstd::prelude::*;
use vstd::utf8::*;

verus! {

/// One hunk of a diff: rows `row_start..row_end` of the new text stand in place of bytes
/// `base_start..base_end` of the base text.
#[derive(Debug, Clone, Copy, PartialEq, Eq, Structural)]
pub struct DiffHunk {
    pub row_start: u32,
    pub row_end: u32,
    pub base_start: usize,
    pub base_end: usize,
}

/// `height` empty rows between two rows of a text.
#[derive(Debug, Clone, Copy, PartialEq, Eq, Structural)]
pub struct SpacerBlock {
    /// The row right above the empty rows, or none where they stand above the first row.
    pub below_row: Option<u32>,
    pub height: u32,
}

/// The rows `start..end`.
#[derive(Debug, Clone, Copy, PartialEq, Eq, Structural)]
pub struct RowRange {
    pub start: u32,
    pub end: u32,
}

/// Where the stage and restore icons of a hunk stand in the divider.
#[derive(Debug, Clone, Copy, PartialEq, Eq, Structural)]
pub struct HunkIconInfo {
    pub rhs_start_row: u32,
    /// The rows of the longer side of the hunk.
    pub hunk_height: u32,
    /// The rows of the spacer above `rhs_start_row`, if there is one.
    pub rhs_spacer_height: u32,
}

/// The byte of a line feed.
pub const NEWLINE: u8 = 10;

/// How many line feeds `text` has.
pub open spec fn newline_count(text: Seq<u8>) -> nat
    decreases text.len(),
{
    if text.len() == 0 {
        0
    } else {
        newline_count(text.drop_last()) + if text.last() == NEWLINE { 1nat } else { 0nat }
    }
}

/// How many lines `text` has; a last line without a line feed is one too.
pub open spec fn line_count(text: Seq<u8>) -> nat {
    newline_count(text) + if text.len() > 0 && text.last() != NEWLINE { 1nat } else { 0nat }
}

/// The bytes of the base text that a hunk replaces, as far as the text has them.
pub open spec fn base_slice(base: Seq<u8>, hunk: DiffHunk) -> Seq<u8> {
    let end = if hunk.base_end <= base.len() { hunk.base_end as int } else { base.len() as int };
    let start = if hunk.base_start <= end { hunk.base_start as int } else { end };
    base.subrange(start, end)
}

/// How many rows a hunk has on the left side.
pub open spec fn lhs_lines(base: Seq<u8>, hunk: DiffHunk) -> nat {
    line_count(base_slice(base, hunk))
}

/// How many rows a hunk has on the right side.
pub open spec fn rhs_lines(hunk: DiffHunk) -> int {
    hunk.row_end - hunk.row_start
}

/// By how many rows the right side of a hunk is longer than its left side.
pub open spec fn line_diff(base: Seq<u8>, hunk: DiffHunk) -> int {
    rhs_lines(hunk) - lhs_lines(base, hunk)
}

/// By how many rows the first `n` hunks push the right side down.
pub open spec fn extra_offset(base: Seq<u8>, hunks: Seq<DiffHunk>, n: int) -> int
    decreases n,
{
    if n <= 0 {
        0
    } else {
        extra_offset(base, hunks, n - 1) + line_diff(base, hunks[n - 1])
    }
}

/// The left row at which hunk `k` begins.
pub open spec fn lhs_start(base: Seq<u8>, hunks: Seq<DiffHunk>, k: int) -> int {
    hunks[k].row_start - extra_offset(base, hunks, k)
}

/// The left row behind hunk `k`.
pub open spec fn lhs_end(base: Seq<u8>, hunks: Seq<DiffHunk>, k: int) -> int {
    lhs_start(base, hunks, k) + lhs_lines(base, hunks[k])
}

/// A row number out of a signed one: nothing below zero, and the low 32 bits.
pub open spec fn clip_row(row: int) -> u32 {
    (if row > 0 { row } else { 0 }) as u32
}

/// The row above `row`; the first row has none.
pub open spec fn boundary(row: u32) -> Option<u32> {
    if row > 0 { Some((row - 1) as u32) } else { None }
}

/// The row above `row`, or the first row.
pub open spec fn row_above(row: u32) -> u32 {
    if row > 0 { (row - 1) as u32 } else { 0 }
}

/// The row below which a left spacer goes that belongs before row `row`. Behind the last
/// row of the text there is no row: the spacer goes above the last one then, or below it
/// where it is the only one.
pub open spec fn lhs_boundary(row: u32, lhs_max_row: u32) -> Option<u32> {
    if row <= lhs_max_row { boundary(row) } else { Some(row_above(lhs_max_row)) }
}

/// The spacer on the left side that hunk `k` needs where its right side is longer.
pub open spec fn lhs_spacer(
    base: Seq<u8>,
    hunks: Seq<DiffHunk>,
    lhs_max_row: u32,
    k: int,
) -> SpacerBlock {
    SpacerBlock {
        below_row: lhs_boundary(clip_row(lhs_end(base, hunks, k)), lhs_max_row),
        height: line_diff(base, hunks[k]) as u32,
    }
}

/// The spacer on the right side that a hunk needs where its left side is longer.
pub open spec fn rhs_spacer(base: Seq<u8>, hunk: DiffHunk) -> SpacerBlock {
    SpacerBlock {
        below_row: boundary(hunk.row_start),
        height: (-line_diff(base, hunk)) as u32,
    }
}

/// The spacers on the left side for the first `n` hunks.
pub open spec fn lhs_spacers(
    base: Seq<u8>,
    hunks: Seq<DiffHunk>,
    lhs_max_row: u32,
    n: int,
) -> Seq<SpacerBlock>
    decreases n,
{
    if n <= 0 {
        Seq::empty()
    } else if line_diff(base, hunks[n - 1]) > 0 {
        lhs_spacers(base, hunks, lhs_max_row, n - 1).push(
            lhs_spacer(base, hunks, lhs_max_row, n - 1),
        )
    } else {
        lhs_spacers(base, hunks, lhs_max_row, n - 1)
    }
}

/// The spacers on the right side for the first `n` hunks.
pub open spec fn rhs_spacers(base: Seq<u8>, hunks: Seq<DiffHunk>, n: int) -> Seq<SpacerBlock>
    decreases n,
{
    if n <= 0 {
        Seq::empty()
    } else if line_diff(base, hunks[n - 1]) < 0 {
        rhs_spacers(base, hunks, n - 1).push(rhs_spacer(base, hunks[n - 1]))
    } else {
        rhs_spacers(base, hunks, n - 1)
    }
}

/// The divider icons of a hunk.
pub open spec fn hunk_icon(base: Seq<u8>, hunk: DiffHunk) -> HunkIconInfo {
    let rhs = rhs_lines(hunk);
    let lhs = lhs_lines(base, hunk);
    HunkIconInfo {
        rhs_start_row: hunk.row_start,
        hunk_height: (if rhs >= lhs { rhs } else { lhs as int }) as u32,
        rhs_spacer_height: (if rhs < lhs { lhs - rhs } else { 0 }) as u32,
    }
}

/// The left rows of hunk `k`, as far as the left side has them.
pub open spec fn lhs_highlight(
    base: Seq<u8>,
    hunks: Seq<DiffHunk>,
    lhs_max_row: u32,
    k: int,
) -> RowRange {
    let start = clip_row(lhs_start(base, hunks, k));
    let end = clip_row(start + lhs_lines(base, hunks[k]));
    RowRange { start, end: if end <= lhs_max_row { end } else { (lhs_max_row + 1) as u32 } }
}

/// The left rows of the first `n` hunks; a hunk without left rows has no range.
pub open spec fn lhs_highlights(
    base: Seq<u8>,
    hunks: Seq<DiffHunk>,
    lhs_max_row: u32,
    n: int,
) -> Seq<RowRange>
    decreases n,
{
    if n <= 0 {
        Seq::empty()
    } else if lhs_lines(base, hunks[n - 1]) > 0 {
        lhs_highlights(base, hunks, lhs_max_row, n - 1).push(
            lhs_highlight(base, hunks, lhs_max_row, n - 1),
        )
    } else {
        lhs_highlights(base, hunks, lhs_max_row, n - 1)
    }
}

/// `x` can be held in an `i64`.
pub open spec fn fits_i64(x: int) -> bool {
    i64::MIN <= x <= i64::MAX
}

/// The row arithmetic of hunk `k` stays within 64 bits.
pub open spec fn hunk_in_range(base: Seq<u8>, hunks: Seq<DiffHunk>, k: int) -> bool {
    &&& lhs_lines(base, hunks[k]) <= i64::MAX
    &&& i64::MIN < line_diff(base, hunks[k]) <= i64::MAX
    &&& fits_i64(extra_offset(base, hunks, k + 1))
    &&& line_diff(base, hunks[k]) > 0 ==> fits_i64(lhs_start(base, hunks, k)) && fits_i64(
        lhs_end(base, hunks, k),
    )
}

/// The row arithmetic of every hunk stays within 64 bits.
pub open spec fn hunks_in_range(base: Seq<u8>, hunks: Seq<DiffHunk>) -> bool {
    forall|k: int| 0 <= k < hunks.len() ==> #[trigger] hunk_in_range(base, hunks, k)
}

/// The left rows of hunk `k` can be counted within 64 bits, and the row behind the last
/// one within 32.
pub open spec fn highlight_in_range(
    base: Seq<u8>,
    hunks: Seq<DiffHunk>,
    lhs_max_row: u32,
    k: int,
) -> bool {
    lhs_lines(base, hunks[k]) > 0 ==> {
        &&& fits_i64(lhs_start(base, hunks, k))
        &&& fits_i64(clip_row(lhs_start(base, hunks, k)) + lhs_lines(base, hunks[k]))
        &&& lhs_max_row < u32::MAX
    }
}

/// [`highlight_in_range`] of every hunk.
pub open spec fn highlights_in_range(
    base: Seq<u8>,
    hunks: Seq<DiffHunk>,
    lhs_max_row: u32,
) -> bool {
    forall|k: int|
        0 <= k < hunks.len() ==> #[trigger] highlight_in_range(base, hunks, lhs_max_row, k)
}

/// The bytes of a base text; a diff without one has none.
pub open spec fn base_bytes(base_text: Option<&str>) -> Seq<u8> {
    match base_text {
        Some(text) => encode_utf8(text@),
        None => Seq::empty(),
    }
}

/// The bytes of a base text.
pub fn bytes_of<'a>(base_text: Option<&'a str>) -> (r: &'a [u8])
    ensures
        r@ == base_bytes(base_text),
{
    match base_text {
        Some(text) => text.as_bytes(),
        None => &[],
    }
}

/// How many rows of the base text a hunk replaces.
pub fn count_lhs_lines(base: &[u8], hunk: &DiffHunk) -> (r: i64)
    requires
        lhs_lines(base@, *hunk) <= i64::MAX,
    ensures
        r == lhs_lines(base@, *hunk),
{
    count_lines(base, hunk) as i64
}

fn count_lines(base: &[u8], hunk: &DiffHunk) -> (r: i128)
    ensures
        r == lhs_lines(base@, *hunk),
        r <= usize::MAX + 1,
{
    let len: usize = base.len();
    let end: usize = if hunk.base_end <= len { hunk.base_end } else { len };
    let start: usize = if hunk.base_start <= end { hunk.base_start } else { end };
    let ghost slice = base_slice(base@, *hunk);
    let mut newlines: usize = 0;
    let mut i: usize = start;
    while i < end
        invariant
            start <= i <= end <= base.len(),
            slice == base@.subrange(start as int, end as int),
            newlines == newline_count(slice.take(i - start)),
            newlines <= i - start,
        decreases end - i,
    {
        proof {
            assert(slice.take(i + 1 - start).drop_last() =~= slice.take(i - start));
        }
        if base[i] == NEWLINE {
            newlines = newlines + 1;
        }
        i = i + 1;
    }
    assert(slice.take(end - start) =~= slice);
    if start < end && base[end - 1] != NEWLINE {
        newlines as i128 + 1
    } else {
        newlines as i128
    }
}

fn is_i64(x: i128) -> (r: bool)
    ensures
        r == fits_i64(x as int),
{
    i64::MIN as i128 <= x && x <= i64::MAX as i128
}

/// Whether the row arithmetic of every hunk of a diff against `base_text` stays within 64
/// bits, so that its spacers can be computed.
pub fn hunks_can_be_counted(hunks: &Vec<DiffHunk>, base_text: Option<&str>) -> (r: bool)
    ensures
        r == hunks_in_range(base_bytes(base_text), hunks@),
{
    let base = bytes_of(base_text);
    let mut offset: i128 = 0;
    let mut k: usize = 0;
    while k < hunks.len()
        invariant
            k <= hunks.len(),
            base@ == base_bytes(base_text),
            offset == extra_offset(base@, hunks@, k as int),
            fits_i64(offset as int),
            forall|j: int| 0 <= j < k ==> #[trigger] hunk_in_range(base@, hunks@, j),
        decreases hunks.len() - k,
    {
        let hunk = hunks[k];
        let lhs_count: i128 = count_lines(base, &hunk);
        let diff: i128 = (hunk.row_end as i128 - hunk.row_start as i128) - lhs_count;
        let start: i128 = hunk.row_start as i128 - offset;
        let fits = is_i64(lhs_count) && is_i64(diff) && diff != i64::MIN as i128 && is_i64(
            offset + diff,
        ) && (diff <= 0 || (is_i64(start) && is_i64(start + lhs_count)));
        assert(fits == hunk_in_range(base@, hunks@, k as int));
        if !fits {
            return false;
        }
        offset = offset + diff;
        k = k + 1;
    }
    true
}

/// Whether the left rows of every hunk can be counted, so that they can be highlighted.
pub fn highlights_can_be_counted(
    hunks: &Vec<DiffHunk>,
    base_text: Option<&str>,
    lhs_max_row: u32,
) -> (r: bool)
    requires
        hunks_in_range(base_bytes(base_text), hunks@),
    ensures
        r == highlights_in_range(base_bytes(base_text), hunks@, lhs_max_row),
{
    let base = bytes_of(base_text);
    let mut offset: i128 = 0;
    let mut k: usize = 0;
    while k < hunks.len()
        invariant
            k <= hunks.len(),
            base@ == base_bytes(base_text),
            hunks_in_range(base@, hunks@),
            offset == extra_offset(base@, hunks@, k as int),
            fits_i64(offset as int),
            forall|j: int|
                0 <= j < k ==> #[trigger] highlight_in_range(base@, hunks@, lhs_max_row, j),
        decreases hunks.len() - k,
    {
        let hunk = hunks[k];
        assert(hunk_in_range(base@, hunks@, k as int));
        let lhs_count: i128 = count_lines(base, &hunk);
        let start: i128 = hunk.row_start as i128 - offset;
        let fits = lhs_count == 0 || (is_i64(start) && is_i64(
            to_row(start as i64) as i128 + lhs_count,
        ) && lhs_max_row < u32::MAX);
        assert(fits == highlight_in_range(base@, hunks@, lhs_max_row, k as int));
        if !fits {
            return false;
        }
        offset = offset + ((hunk.row_end as i128 - hunk.row_start as i128) - lhs_count);
        k = k + 1;
    }
    true
}

/// The lower end of [`clip_row`] and its low 32 bits.
pub fn to_row(row: i64) -> (r: u32)
    ensures
        r == clip_row(row as int),
{
    let row: i64 = if row > 0 { row } else { 0 };
    row as u32
}

/// A row's upper neighbour.
pub fn above(row: u32) -> (r: Option<u32>)
    ensures
        r == boundary(row),
{
    if row > 0 { Some(row - 1) } else { None }
}

/// Where a left spacer goes that belongs before row `row`.
pub fn lhs_above(row: u32, lhs_max_row: u32) -> (r: Option<u32>)
    ensures
        r == lhs_boundary(row, lhs_max_row),
{
    if row <= lhs_max_row {
        above(row)
    } else if lhs_max_row > 0 {
        Some(lhs_max_row - 1)
    } else {
        Some(0)
    }
}

/// The left spacer of a hunk that begins at right row `row_start`, where the hunks before
/// it have pushed the right side down by `offset` rows.
pub fn make_lhs_spacer(row_start: u32, offset: i64, lines: i64, diff: i64, lhs_max_row: u32) -> (r:
    SpacerBlock)
    requires
        fits_i64(row_start - offset),
        fits_i64(row_start - offset + lines),
    ensures
        r == (SpacerBlock {
            below_row: lhs_boundary(clip_row(row_start - offset + lines), lhs_max_row),
            height: (diff as int) as u32,
        }),
{
    let row: u32 = to_row((row_start as i64 - offset) + lines);
    SpacerBlock { below_row: lhs_above(row, lhs_max_row), height: diff as u32 }
}

/// The right spacer of a hunk that begins at right row `row_start`.
pub fn make_rhs_spacer(row_start: u32, diff: i64) -> (r: SpacerBlock)
    requires
        i64::MIN < diff,
    ensures
        r == (SpacerBlock { below_row: boundary(row_start), height: (-diff) as u32 }),
{
    SpacerBlock { below_row: above(row_start), height: (-diff) as u32 }
}

} // verus!
