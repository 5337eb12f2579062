//! A read-only snapshot of the display region a movement command works
//! against: how many entry rows fit, and how wide the region is.

use vstd::prelude::*;

verus! {

/// Visible row and column counts of the entry-listing region at the moment a
/// command runs.  The paging commands derive their step from `cols`.
#[derive(Clone, Copy, Debug, PartialEq, Eq, Structural)]
pub struct ViewGeometry {
    pub rows: usize,
    pub cols: usize,
}

impl ViewGeometry {
    pub fn new(rows: usize, cols: usize) -> (r: ViewGeometry)
        ensures
            r.rows == rows,
            r.cols == cols,
    {
        ViewGeometry { rows, cols }
    }
}

} // verus!
