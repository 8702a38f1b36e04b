use vs_git_ui::alignment::{
    count_lhs_lines, highlights_can_be_counted, hunks_can_be_counted, DiffHunk, HunkIconInfo,
    RowRange, SpacerBlock,
};
use vs_git_ui::scroll_sync::initial_scroll_row;
use vs_git_ui::vs_commit_diff_view::insert_alignment_blocks;
use vs_git_ui::vs_file_diff_view::{
    icon_top, matching_hunks, restore_range, VsDiffKind, VsFileDiffView,
};

fn hunk(row_start: u32, row_end: u32, base_start: usize, base_end: usize) -> DiffHunk {
    DiffHunk { row_start, row_end, base_start, base_end }
}

fn block(below_row: u32, height: u32) -> SpacerBlock {
    SpacerBlock { below_row: Some(below_row), height }
}

fn block_at_top(height: u32) -> SpacerBlock {
    SpacerBlock { below_row: None, height }
}

/// The display row of `row` between `blocks`.
fn displayed(blocks: &[SpacerBlock], row: u32) -> u32 {
    let mut at = row;
    for b in blocks {
        if b.below_row.map_or(true, |below| below < row) {
            at += b.height;
        }
    }
    at
}

#[test]
fn lines_of_the_base_text() {
    let text = "a\nb\nc".as_bytes();
    assert_eq!(count_lhs_lines(text, &hunk(0, 0, 0, 5)), 3);
    assert_eq!(count_lhs_lines(text, &hunk(0, 0, 0, 4)), 2);
    assert_eq!(count_lhs_lines(text, &hunk(0, 0, 0, 1)), 1);
    assert_eq!(count_lhs_lines(text, &hunk(0, 0, 1, 2)), 1);
    assert_eq!(count_lhs_lines(text, &hunk(0, 0, 2, 2)), 0);
    assert_eq!(count_lhs_lines(text, &hunk(0, 0, 4, 2)), 0);
    // What lies behind the end of the text is passed over.
    assert_eq!(count_lhs_lines(text, &hunk(0, 0, 4, 100)), 1);
    assert_eq!(count_lhs_lines(text, &hunk(0, 0, 50, 100)), 0);
    assert_eq!(count_lhs_lines("ä\nö\n".as_bytes(), &hunk(0, 0, 0, 6)), 2);
}

#[test]
fn rows_that_can_be_counted() {
    let hunks = vec![hunk(0, u32::MAX, 0, 2), hunk(u32::MAX, 0, 2, 4)];
    assert!(hunks_can_be_counted(&hunks, Some("a\nb\n")));
    assert!(hunks_can_be_counted(&hunks, None));
    assert!(hunks_can_be_counted(&vec![], None));
    assert!(highlights_can_be_counted(&hunks, Some("a\nb\n"), 2));
    assert!(!highlights_can_be_counted(&hunks, Some("a\nb\n"), u32::MAX));
    // Where nothing is highlighted, no row is needed behind the last one.
    assert!(highlights_can_be_counted(&hunks, None, u32::MAX));
}

#[test]
fn added_lines_leave_space_on_the_left() {
    // Base: six lines. Two lines are new behind the third one.
    let base = "1\n2\n3\n4\n5\n6\n";
    let hunks = vec![hunk(3, 5, 6, 6)];
    let r = VsFileDiffView::compute_alignment_blocks(&hunks, Some(base), 6, VsDiffKind::Unstaged);
    assert_eq!(r.lhs, vec![block(2, 2)]);
    assert!(r.rhs.is_empty());
    assert_eq!(
        r.icons,
        vec![HunkIconInfo { rhs_start_row: 3, hunk_height: 2, rhs_spacer_height: 0 }]
    );
}

#[test]
fn deleted_lines_leave_space_on_the_right() {
    let base = "1\n2\n3\n4\n5\n6\n";
    let hunks = vec![hunk(2, 2, 4, 10)];
    let r = VsFileDiffView::compute_alignment_blocks(&hunks, Some(base), 6, VsDiffKind::Unstaged);
    assert!(r.lhs.is_empty());
    assert_eq!(r.rhs, vec![block(1, 3)]);
    assert_eq!(
        r.icons,
        vec![HunkIconInfo { rhs_start_row: 2, hunk_height: 3, rhs_spacer_height: 3 }]
    );
}

#[test]
fn changed_lines_of_equal_number_need_no_space() {
    let hunks = vec![hunk(1, 3, 2, 6)];
    let base = "1\n2\n3\n4\n";
    let r = VsFileDiffView::compute_alignment_blocks(&hunks, Some(base), 4, VsDiffKind::Unstaged);
    assert!(r.lhs.is_empty());
    assert!(r.rhs.is_empty());
    assert_eq!(r.icons.len(), 1);
}

#[test]
fn a_staged_diff_has_no_icons() {
    let hunks = vec![hunk(3, 5, 6, 6)];
    let r = VsFileDiffView::compute_alignment_blocks(
        &hunks,
        Some("1\n2\n3\n4\n"),
        4,
        VsDiffKind::Staged,
    );
    assert_eq!(r.lhs, vec![block(2, 2)]);
    assert!(r.icons.is_empty());
}

#[test]
fn no_hunks_no_blocks() {
    let r = VsFileDiffView::compute_alignment_blocks(&vec![], Some("x"), 0, VsDiffKind::Unstaged);
    assert!(r.lhs.is_empty() && r.rhs.is_empty() && r.icons.is_empty());
    let r = insert_alignment_blocks(&vec![], None, 0);
    assert!(r.lhs.is_empty() && r.rhs.is_empty() && r.highlights.is_empty());
}

#[test]
fn without_a_base_text_every_hunk_is_an_addition() {
    let hunks = vec![hunk(4, 6, 3, 9)];
    let r = insert_alignment_blocks(&hunks, None, 10);
    assert_eq!(r.lhs, vec![block(3, 2)]);
    assert!(r.highlights.is_empty());
}

#[test]
fn lines_added_at_the_top_leave_space_above_the_first_row() {
    let r = VsFileDiffView::compute_alignment_blocks(
        &vec![hunk(0, 2, 0, 0)],
        Some("1\n"),
        1,
        VsDiffKind::Unstaged,
    );
    assert_eq!(r.lhs, vec![block_at_top(2)]);
    assert!(r.rhs.is_empty());
    assert_eq!(displayed(&r.rhs, 2), displayed(&r.lhs, 0));
    assert_eq!(icon_top(&r.icons[0], displayed(&r.rhs, 0)), 0);
}

#[test]
fn lines_deleted_at_the_top_leave_space_above_the_first_row() {
    let r = VsFileDiffView::compute_alignment_blocks(
        &vec![hunk(0, 0, 0, 2)],
        Some("x\na\n"),
        2,
        VsDiffKind::Unstaged,
    );
    assert!(r.lhs.is_empty());
    assert_eq!(r.rhs, vec![block_at_top(1)]);
    assert_eq!(displayed(&r.rhs, 0), 1);
    assert_eq!(displayed(&r.rhs, 0), displayed(&r.lhs, 1));
    // The icons cover the space.
    assert_eq!(icon_top(&r.icons[0], displayed(&r.rhs, 0)), 0);
    assert_eq!(r.icons[0].hunk_height, 1);
    let commit = insert_alignment_blocks(&vec![hunk(0, 0, 0, 2)], Some("x\na\n"), 2);
    assert_eq!(commit.rhs, r.rhs);
    assert_eq!(commit.highlights, vec![RowRange { start: 0, end: 1 }]);
}

#[test]
fn a_new_file_leaves_space_above_the_empty_row() {
    let r = insert_alignment_blocks(&vec![hunk(0, 2, 0, 0)], Some(""), 0);
    assert_eq!(r.lhs, vec![block_at_top(2)]);
    assert_eq!(displayed(&r.rhs, 2), displayed(&r.lhs, 0));
}

#[test]
fn the_space_stays_within_the_left_text() {
    let r = VsFileDiffView::compute_alignment_blocks(
        &vec![hunk(9, 12, 0, 0)],
        Some("1\n2"),
        1,
        VsDiffKind::Unstaged,
    );
    assert_eq!(r.lhs, vec![block(0, 3)]);
}

#[test]
fn unchanged_rows_stand_side_by_side() {
    // Base rows:  0 1 2 3 4 5 6 7 8 9
    // Rows 2, 3 are replaced by one row, two rows are new behind row 5, row 8 is deleted.
    let base = "0\n1\n2\n3\n4\n5\n6\n7\n8\n9\n";
    let hunks = vec![hunk(2, 3, 4, 8), hunk(5, 7, 12, 12), hunk(9, 9, 16, 18)];
    let r = VsFileDiffView::compute_alignment_blocks(&hunks, Some(base), 10, VsDiffKind::Unstaged);
    assert_eq!(r.rhs, vec![block(1, 1), block(8, 1)]);
    assert_eq!(r.lhs, vec![block(5, 2)]);
    let pairs: [(u32, u32); 7] = [(0, 0), (1, 1), (3, 4), (4, 5), (7, 6), (8, 7), (9, 9)];
    for (new_row, old_row) in pairs {
        assert_eq!(displayed(&r.rhs, new_row), displayed(&r.lhs, old_row));
    }
    // The icons begin where the hunk does, and end where it does.
    let tops: Vec<i64> = r
        .icons
        .iter()
        .map(|icon| icon_top(icon, displayed(&r.rhs, icon.rhs_start_row)))
        .collect();
    assert_eq!(tops, vec![2, 6, 10]);
    let heights: Vec<u32> = r.icons.iter().map(|icon| icon.hunk_height).collect();
    assert_eq!(heights, vec![2, 2, 1]);
}

#[test]
fn icons_of_a_change_at_the_top() {
    // The first row becomes two rows.
    let r = VsFileDiffView::compute_alignment_blocks(
        &vec![hunk(0, 2, 0, 2), hunk(4, 4, 6, 8)],
        Some("0\n1\n2\n3\n4\n"),
        5,
        VsDiffKind::Unstaged,
    );
    assert_eq!(r.lhs, vec![block(0, 1)]);
    assert_eq!(r.rhs, vec![block(3, 1)]);
    assert_eq!(icon_top(&r.icons[0], displayed(&r.rhs, 0)), 0);
    assert_eq!(r.icons[0].hunk_height, 2);
    assert_eq!(icon_top(&r.icons[1], displayed(&r.rhs, 4)), 4);
    // Behind each hunk the rows are side by side again.
    assert_eq!(displayed(&r.rhs, 2), displayed(&r.lhs, 1));
    assert_eq!(displayed(&r.rhs, 4), displayed(&r.lhs, 4));
}

#[test]
fn rows_appended_behind_a_single_row() {
    // The only row of the base text has no line feed.
    let r = insert_alignment_blocks(&vec![hunk(1, 3, 1, 1)], Some("0"), 0);
    assert_eq!(r.lhs, vec![block(0, 2)]);
    assert_eq!(displayed(&r.rhs, 0), displayed(&r.lhs, 0));
}

#[test]
fn commit_diff_has_the_same_spacers_and_highlights_the_left_rows() {
    let base = "0\n1\n2\n3\n4\n5\n6\n7\n8\n9\n";
    let hunks = vec![hunk(2, 3, 4, 8), hunk(5, 7, 12, 12), hunk(9, 9, 16, 18)];
    let file = VsFileDiffView::compute_alignment_blocks(&hunks, Some(base), 10, VsDiffKind::Staged);
    let commit = insert_alignment_blocks(&hunks, Some(base), 10);
    assert_eq!(commit.rhs, file.rhs);
    assert_eq!(commit.lhs, file.lhs);
    assert_eq!(
        commit.highlights,
        vec![RowRange { start: 2, end: 4 }, RowRange { start: 8, end: 9 }]
    );
}

#[test]
fn a_highlight_ends_with_the_left_text() {
    let r = insert_alignment_blocks(&vec![hunk(1, 1, 2, 6)], Some("1\n2\n3\n"), 2);
    assert_eq!(r.highlights, vec![RowRange { start: 1, end: 3 }]);
    let r = insert_alignment_blocks(&vec![hunk(1, 1, 2, 6)], Some("1\n2\n3\n"), 1);
    assert_eq!(r.highlights, vec![RowRange { start: 1, end: 2 }]);
}

#[test]
fn the_first_scroll_row_is_a_little_above_the_first_hunk() {
    assert_eq!(initial_scroll_row(&vec![]), None);
    assert_eq!(initial_scroll_row(&vec![hunk(10, 12, 0, 0), hunk(2, 3, 0, 0)]), Some(7));
    assert_eq!(initial_scroll_row(&vec![hunk(3, 12, 0, 0)]), Some(0));
    assert_eq!(initial_scroll_row(&vec![hunk(1, 12, 0, 0)]), Some(0));
}

#[test]
fn the_restore_icon_restores_at_its_row() {
    let icon = HunkIconInfo { rhs_start_row: 7, hunk_height: 3, rhs_spacer_height: 1 };
    assert_eq!(restore_range(&icon), RowRange { start: 7, end: 7 });
}

#[test]
fn the_stage_icon_finds_its_hunks() {
    let rows = vec![
        RowRange { start: 0, end: 0 },
        RowRange { start: 3, end: 5 },
        RowRange { start: 5, end: 9 },
        RowRange { start: 12, end: 12 },
    ];
    assert_eq!(matching_hunks(&rows, 0), vec![0]);
    assert_eq!(matching_hunks(&rows, 3), vec![1]);
    assert_eq!(matching_hunks(&rows, 5), vec![1, 2]);
    assert_eq!(matching_hunks(&rows, 12), vec![3]);
    assert!(matching_hunks(&rows, 10).is_empty());
}
