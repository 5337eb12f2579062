//! Viewport arithmetic: clamping a proposed selection index and scrolling the
//! window offset so that the selection stays inside a margin band.

use vstd::prelude::*;

verus! {

/// A proposed selection index, clamped to the bounds of a non-empty list of
/// `total` entries.
pub open spec fn spec_clamped_index(proposed: int, total: int) -> int
    recommends
        total > 0,
{
    if proposed >= total {
        total - 1
    } else {
        proposed
    }
}

/// The largest scroll offset that still fills the window: `total - rows` when
/// the list overflows the window, `0` otherwise.
pub open spec fn spec_max_offset(total: int, rows: int) -> int {
    if total <= rows {
        0
    } else {
        total - rows
    }
}

/// The scroll offset after moving the selection to `index`, starting from the
/// offset `off`, for a window of `rows` rows over `total` entries with a
/// scroll margin of `margin` rows.
///
/// When the whole list fits (or the window has no rows) the offset is `0`.
/// Otherwise the selection is kept inside the band
/// `[off + margin, off + rows - 1 - margin]`: when it falls below the band the
/// offset drops by exactly the deficit (never below `0`), when it rises above
/// the band the offset grows by exactly the deficit (never beyond
/// `total - rows`), and inside the band the offset does not move.
pub open spec fn spec_next_offset(off: int, index: int, rows: int, total: int, margin: int) -> int
    recommends
        0 <= off,
        0 <= index < total,
        0 <= rows,
        0 <= margin,
{
    if total <= rows || rows == 0 {
        0
    } else if index < off + margin {
        if index < margin {
            0
        } else {
            index - margin
        }
    } else if index + margin >= off + rows {
        if index + margin + 1 >= total {
            total - rows
        } else {
            index + 1 + margin - rows
        }
    } else {
        off
    }
}

/// The scroll state of one displayed directory list: the index of the first
/// visible row.
#[derive(Clone, Copy, Debug)]
pub struct PaginationState {
    pub offset: usize,
}

impl PaginationState {
    /// A fresh state scrolled to the top.
    pub fn new() -> (r: PaginationState)
        ensures
            r.offset == 0,
    {
        PaginationState { offset: 0 }
    }

    /// Re-derives the scroll offset after the selection moved to `index`,
    /// per `spec_next_offset`.  The selection stays visible whenever the
    /// margin leaves room for it (`margin < rows`), and an offset that was
    /// within `spec_max_offset` stays within it.
    pub fn update_page_state(&mut self, index: usize, rows: usize, total: usize, margin: usize)
        requires
            index < total,
        ensures
            final(self).offset == spec_next_offset(
                old(self).offset as int,
                index as int,
                rows as int,
                total as int,
                margin as int,
            ),
            rows > 0 && margin < rows ==> final(self).offset <= index < final(self).offset + rows,
            old(self).offset <= spec_max_offset(total as int, rows as int)
                ==> final(self).offset <= spec_max_offset(total as int, rows as int),
    {
        let off = self.offset;
        if total <= rows || rows == 0 {
            self.offset = 0;
        } else if index < margin {
            self.offset = 0;
        } else if index - margin < off {
            self.offset = index - margin;
        } else {
            // Here `index >= off + margin`, so the selection is at or above
            // the lower edge of the band.
            let above_band: bool = if margin >= rows {
                true
            } else {
                index - off >= rows - margin
            };
            if above_band {
                let headroom = (total - 1) - index;
                if margin >= headroom {
                    self.offset = total - rows;
                } else {
                    self.offset = index + 1 + margin - rows;
                }
            }
        }
    }
}

/// The selection never leaves the visible window: after any update with a
/// margin smaller than the window, `offset <= index < offset + rows`.
pub proof fn lemma_selection_visible(off: int, index: int, rows: int, total: int, margin: int)
    requires
        0 <= off,
        0 <= index < total,
        0 <= margin < rows,
    ensures
        spec_next_offset(off, index, rows, total, margin) <= index < spec_next_offset(
            off,
            index,
            rows,
            total,
            margin,
        ) + rows,
{
}

/// The offset moves only when it must: with an offset inside its legal range
/// (`spec_max_offset`), a selection already inside the margin band leaves
/// the offset unchanged.
pub proof fn lemma_offset_stable_in_band(off: int, index: int, rows: int, total: int, margin: int)
    requires
        0 <= margin,
        0 < rows,
        0 <= index < total,
        0 <= off <= spec_max_offset(total, rows),
        off + margin <= index,
        index + margin + 1 <= off + rows,
    ensures
        spec_next_offset(off, index, rows, total, margin) == off,
{
}

/// Moving to the first entry is idempotent: a second move to index `0`
/// changes neither the clamped index nor the offset.
pub proof fn lemma_home_idempotent(off: int, rows: int, total: int, margin: int)
    requires
        0 <= off,
        0 <= margin,
        0 <= rows,
        0 < total,
    ensures
        spec_clamped_index(0, total) == 0,
        spec_next_offset(spec_next_offset(off, 0, rows, total, margin), 0, rows, total, margin)
            == spec_next_offset(off, 0, rows, total, margin),
{
}

/// Moving to the last entry is idempotent, provided the margin leaves room in
/// the window and the starting offset is within its legal range.
pub proof fn lemma_end_idempotent(off: int, rows: int, total: int, margin: int)
    requires
        0 <= margin < rows,
        0 < total,
        0 <= off <= spec_max_offset(total, rows),
    ensures
        spec_clamped_index(total - 1, total) == total - 1,
        spec_next_offset(
            spec_next_offset(off, total - 1, rows, total, margin),
            total - 1,
            rows,
            total,
            margin,
        ) == spec_next_offset(off, total - 1, rows, total, margin),
{
}

} // verus!
