//! One directory's ordered entries, the selected entry, and the derived
//! scroll state.

use vstd::prelude::*;

use crate::pagination::PaginationState;
use crate::pagination::lemma_end_idempotent;
use crate::pagination::lemma_home_idempotent;
use crate::pagination::lemma_offset_stable_in_band;
use crate::pagination::lemma_selection_visible;
use crate::pagination::spec_clamped_index;
use crate::pagination::spec_max_offset;
use crate::pagination::spec_next_offset;
use crate::view::ViewGeometry;

verus! {

/// One file-system object's display identity.  Only its position in the list
/// matters to the navigation core.
#[derive(Clone, Debug)]
pub struct Entry {
    pub name: String,
    pub is_directory: bool,
}

/// The listing of one directory: entries in display order, the selected
/// index, and the viewport scroll state.
#[derive(Clone, Debug)]
pub struct DirList {
    pub contents: Vec<Entry>,
    pub index: Option<usize>,
    pub pagestate: PaginationState,
}

impl DirList {
    /// `index` is `None` exactly when the list is empty, and in bounds
    /// otherwise.
    pub open spec fn wf(self) -> bool {
        match self.index {
            Some(i) => (i as int) < self.contents@.len(),
            None => self.contents@.len() == 0,
        }
    }

    /// The list after a move to `candidate` (before clamping), for a window
    /// of `rows` rows and a scroll margin of `margin`: the index is clamped
    /// into bounds and the offset follows `spec_next_offset`.
    pub open spec fn spec_moved(self, candidate: int, rows: int, margin: int) -> DirList
        recommends
            self.contents@.len() > 0,
    {
        let total = self.contents@.len() as int;
        let clamped = spec_clamped_index(candidate, total);
        DirList {
            contents: self.contents,
            index: Some(clamped as usize),
            pagestate: PaginationState {
                offset: spec_next_offset(
                    self.pagestate.offset as int,
                    clamped,
                    rows,
                    total,
                    margin,
                ) as usize,
            },
        }
    }

    /// A freshly scanned listing: the first entry selected when there is one,
    /// scrolled to the top.
    pub fn new(contents: Vec<Entry>) -> (r: DirList)
        ensures
            r.wf(),
            r.contents == contents,
            r.pagestate.offset == 0,
            contents@.len() == 0 ==> r.index is None,
            contents@.len() > 0 ==> r.index == Some(0usize),
    {
        let index: Option<usize> = if contents.len() == 0 {
            None
        } else {
            Some(0)
        };
        DirList { contents, index, pagestate: PaginationState::new() }
    }

    /// Moves the selection to `index_candidate`, clamped into bounds, and
    /// re-derives the scroll offset.  On an empty list this is a no-op.
    pub fn move_to(&mut self, index_candidate: usize, geometry: &ViewGeometry, scroll_margin: usize)
        requires
            old(self).wf(),
        ensures
            final(self).wf(),
            old(self).contents@.len() == 0 ==> *final(self) == *old(self),
            old(self).contents@.len() > 0 ==> *final(self) == old(self).spec_moved(
                index_candidate as int,
                geometry.rows as int,
                scroll_margin as int,
            ),
    {
        let total = self.contents.len();
        if total == 0 {
            return ;
        }
        let clamped = if index_candidate >= total {
            total - 1
        } else {
            index_candidate
        };
        self.index = Some(clamped);
        self.pagestate.update_page_state(clamped, geometry.rows, total, scroll_margin);
    }
}

/// After any move the selection is inside the visible window
/// (`offset <= index < offset + rows`), whenever the margin leaves room for
/// it.
pub proof fn lemma_moved_selection_visible(l: DirList, candidate: int, rows: int, margin: int)
    requires
        0 < l.contents@.len() <= usize::MAX,
        0 <= candidate,
        0 <= margin < rows,
    ensures
        ({
            let total = l.contents@.len() as int;
            let m = l.spec_moved(candidate, rows, margin);
            let i = spec_clamped_index(candidate, total);
            m.index == Some(i as usize) && m.pagestate.offset <= i < m.pagestate.offset + rows
        }),
{
    let total = l.contents@.len() as int;
    let i = spec_clamped_index(candidate, total);
    lemma_selection_visible(l.pagestate.offset as int, i, rows, total, margin);
}

/// A move whose clamped target lies inside the margin band changes the
/// selection alone: the offset and the contents stay exactly as they were,
/// provided the offset starts inside its legal range.
pub proof fn lemma_move_in_band_keeps_offset(l: DirList, candidate: int, rows: int, margin: int)
    requires
        0 < l.contents@.len() <= usize::MAX,
        0 <= candidate,
        0 <= margin,
        0 < rows,
        l.pagestate.offset <= spec_max_offset(l.contents@.len() as int, rows),
        l.pagestate.offset + margin <= spec_clamped_index(candidate, l.contents@.len() as int),
        spec_clamped_index(candidate, l.contents@.len() as int) + margin + 1
            <= l.pagestate.offset + rows,
    ensures
        ({
            let total = l.contents@.len() as int;
            let m = l.spec_moved(candidate, rows, margin);
            m.pagestate.offset == l.pagestate.offset && m.contents == l.contents && m.index
                == Some(spec_clamped_index(candidate, total) as usize)
        }),
{
    let total = l.contents@.len() as int;
    lemma_offset_stable_in_band(
        l.pagestate.offset as int,
        spec_clamped_index(candidate, total),
        rows,
        total,
        margin,
    );
}

/// Jumping to the first entry twice ends exactly where one jump ends.
pub proof fn lemma_move_home_idempotent(l: DirList, rows: int, margin: int)
    requires
        0 < l.contents@.len() <= usize::MAX,
        0 <= rows,
        0 <= margin,
    ensures
        l.spec_moved(0, rows, margin).spec_moved(0, rows, margin) == l.spec_moved(0, rows, margin),
{
    let total = l.contents@.len() as int;
    lemma_home_idempotent(l.pagestate.offset as int, rows, total, margin);
    lemma_home_idempotent(
        l.spec_moved(0, rows, margin).pagestate.offset as int,
        rows,
        total,
        margin,
    );
}

/// Jumping to the last entry twice ends exactly where one jump ends,
/// provided the margin leaves room in the window and the starting offset is
/// within its legal range.
pub proof fn lemma_move_end_idempotent(l: DirList, rows: int, margin: int)
    requires
        0 < l.contents@.len() <= usize::MAX,
        0 <= margin < rows,
        l.pagestate.offset <= spec_max_offset(l.contents@.len() as int, rows),
    ensures
        ({
            let last = l.contents@.len() - 1;
            l.spec_moved(last, rows, margin).spec_moved(last, rows, margin) == l.spec_moved(
                last,
                rows,
                margin,
            )
        }),
{
    let total = l.contents@.len() as int;
    lemma_end_idempotent(l.pagestate.offset as int, rows, total, margin);
}

} // verus!
