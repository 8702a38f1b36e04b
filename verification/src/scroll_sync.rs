//! Keeping the scroll positions of the two sides of a diff equal.

use crate::alignment::DiffHunk;
use vstd::prelude::*;

verus! {

/// A side of a diff.
#[derive(Debug, Clone, Copy, PartialEq, Eq, Structural)]
pub enum Side {
    Lhs,
    Rhs,
}

/// What can happen in the editor of a side.
#[derive(Debug, Clone, Copy, PartialEq, Eq, Structural)]
pub enum EditorEvent {
    /// The editor was scrolled; `local` where this was done by hand here.
    ScrollPositionChanged { local: bool },
    DirtyChanged,
    Saved,
    Other,
}

/// What a diff does on an event of one of its editors.
#[derive(Debug, Clone, Copy, PartialEq, Eq, Structural)]
pub enum EditorReaction {
    Nothing,
    /// Scroll the other side to where `from` is; [`ScrollSync::finish`] follows.
    CopyScroll { from: Side },
    /// Compute the spacer blocks anew.
    RefreshBlocks,
}

/// Whether one side is being scrolled to where the other one is.
#[derive(Debug, Clone, Copy, PartialEq, Eq, Structural)]
pub struct ScrollSync {
    pub syncing: bool,
}

impl ScrollSync {
    /// No side is being scrolled.
    pub fn new() -> (r: Self)
        ensures
            !r.syncing,
    {
        ScrollSync { syncing: false }
    }

    /// The reaction to an event, as far as scrolling goes.
    pub open spec fn reaction(self, from: Side, event: EditorEvent) -> EditorReaction {
        if event == (EditorEvent::ScrollPositionChanged { local: true }) && !self.syncing {
            EditorReaction::CopyScroll { from }
        } else {
            EditorReaction::Nothing
        }
    }

    /// Takes note of an event in the editor of side `from`.
    pub fn on_event(&mut self, from: Side, event: EditorEvent) -> (r: EditorReaction)
        ensures
            r == old(self).reaction(from, event),
            final(self).syncing == (old(self).syncing || r is CopyScroll),
    {
        match event {
            EditorEvent::ScrollPositionChanged { local: true } => {
                if self.syncing {
                    EditorReaction::Nothing
                } else {
                    self.syncing = true;
                    EditorReaction::CopyScroll { from }
                }
            },
            _ => EditorReaction::Nothing,
        }
    }

    /// Events of scrolling are passed over from now on.
    pub fn begin(&mut self)
        ensures
            final(self).syncing,
    {
        self.syncing = true;
    }

    /// Events of scrolling are no longer passed over.
    pub fn finish(&mut self)
        ensures
            !final(self).syncing,
    {
        self.syncing = false;
    }
}

/// While one side is scrolled to where the other one is, no scroll event, from whichever
/// side, sets off another copy: scrolling does not echo.
pub proof fn law_scrolling_does_not_echo(sync: ScrollSync, from: Side, event: EditorEvent)
    requires
        sync.syncing,
    ensures
        sync.reaction(from, event) is Nothing,
{
}

/// Outside a copy, each scroll by hand is copied from the side on which it happened.
pub proof fn law_scrolling_by_hand_is_copied(sync: ScrollSync, from: Side)
    requires
        !sync.syncing,
    ensures
        sync.reaction(from, EditorEvent::ScrollPositionChanged { local: true }) == (
        EditorReaction::CopyScroll { from }),
        sync.reaction(from, EditorEvent::ScrollPositionChanged { local: false }) is Nothing,
{
}

/// How many rows above the first hunk are shown when a diff is opened.
pub const CONTEXT_ROWS: u32 = 3;

/// The row to scroll to when a diff is opened.
pub open spec fn first_scroll_row(hunks: Seq<DiffHunk>) -> Option<u32> {
    if hunks.len() == 0 {
        None
    } else if hunks[0].row_start >= CONTEXT_ROWS {
        Some((hunks[0].row_start - CONTEXT_ROWS) as u32)
    } else {
        Some(0)
    }
}

/// When a diff with hunks is opened, the first change is in view: it is at most
/// [`CONTEXT_ROWS`] rows below the row that is scrolled to.
pub proof fn law_first_change_comes_into_view(hunks: Seq<DiffHunk>)
    ensures
        first_scroll_row(hunks) is Some <==> hunks.len() > 0,
        first_scroll_row(hunks) matches Some(row) ==> row <= hunks[0].row_start <= row
            + CONTEXT_ROWS,
{
}

/// The row to scroll to when a diff is opened: a little above the first hunk.
pub fn initial_scroll_row(hunks: &Vec<DiffHunk>) -> (r: Option<u32>)
    ensures
        r == first_scroll_row(hunks@),
{
    if hunks.len() == 0 {
        None
    } else if hunks[0].row_start >= CONTEXT_ROWS {
        Some(hunks[0].row_start - CONTEXT_ROWS)
    } else {
        Some(0)
    }
}

} // verus!
