//! The movement commands: step, page, home and end.
//!
//! Every command computes a target index from the current selection, asks
//! the active listing to clamp it and re-derive the scroll offset, and then
//! reports whether the display panes must be redrawn.  The drawing itself
//! (listing, title, status and preview panes, then one batched flush) is the
//! embedder's job; on an empty listing nothing changes and no redraw is
//! requested.

use vstd::prelude::*;

use crate::context::Context;
use crate::context::spec_nav_frame;
use crate::view::ViewGeometry;

verus! {

/// Moves the active tab's selection to `new_index` (clamped into bounds)
/// and re-derives its scroll offset, using the configured scroll margin.
/// Returns whether the panes must be redrawn: `false` exactly when the
/// listing has no selection, in which case nothing changes at all.
pub fn cursor_move(new_index: usize, context: &mut Context, view: &ViewGeometry) -> (refreshed:
    bool)
    requires
        old(context).wf(),
    ensures
        final(context).wf(),
        spec_nav_frame(*old(context), *final(context)),
        ({
            let l = old(context).active_list();
            let l2 = final(context).active_list();
            match l.index {
                None => l2 == l && !refreshed,
                Some(_) => l2 == l.spec_moved(
                    new_index as int,
                    view.rows as int,
                    old(context).config_t.scroll_offset as int,
                ) && refreshed,
            }
        }),
{
    let margin = context.config_t.scroll_offset;
    let ctab_i = context.curr_tab_index;
    let curr_tab = &mut context.tabs[ctab_i];
    match curr_tab.curr_list.index {
        None => false,
        Some(_) => {
            curr_tab.curr_list.move_to(new_index, view, margin);
            true
        },
    }
}

/// Step the selection toward the end of the list by a fixed count.
#[derive(Clone, Debug)]
pub struct CursorMoveDown {
    pub movement: usize,
}

impl CursorMoveDown {
    pub fn new(movement: usize) -> (r: CursorMoveDown)
        ensures
            r.movement == movement,
    {
        CursorMoveDown { movement }
    }

    pub fn command() -> (r: &'static str)
        ensures
            r@ == "cursor_move_up"@,
    {
        "cursor_move_up"
    }

    /// Moves the selection `movement` entries down (toward the end),
    /// clamped to the last entry.
    pub fn execute(&self, context: &mut Context, view: &ViewGeometry) -> (refreshed: bool)
        requires
            old(context).wf(),
        ensures
            final(context).wf(),
            spec_nav_frame(*old(context), *final(context)),
            ({
                let l = old(context).active_list();
                let l2 = final(context).active_list();
                match l.index {
                    None => l2 == l && !refreshed,
                    Some(i) => l2 == l.spec_moved(
                        i + self.movement,
                        view.rows as int,
                        old(context).config_t.scroll_offset as int,
                    ) && refreshed,
                }
            }),
    {
        let movement: Option<usize> = {
            let curr_list = &context.tabs[context.curr_tab_index].curr_list;
            proof {
                vstd::std_specs::vec::axiom_spec_len(&curr_list.contents);
            }
            match curr_list.index {
                Some(idx) => Some(
                    if idx <= usize::MAX - self.movement {
                        idx + self.movement
                    } else {
                        usize::MAX
                    },
                ),
                None => None,
            }
        };
        match movement {
            Some(s) => cursor_move(s, context, view),
            None => false,
        }
    }
}

/// Step the selection toward the start of the list by a fixed count.
#[derive(Clone, Debug)]
pub struct CursorMoveUp {
    pub movement: usize,
}

impl CursorMoveUp {
    pub fn new(movement: usize) -> (r: CursorMoveUp)
        ensures
            r.movement == movement,
    {
        CursorMoveUp { movement }
    }

    pub fn command() -> (r: &'static str)
        ensures
            r@ == "cursor_move_down"@,
    {
        "cursor_move_down"
    }

    /// Moves the selection `movement` entries up (toward the start),
    /// stopping at the first entry.
    pub fn execute(&self, context: &mut Context, view: &ViewGeometry) -> (refreshed: bool)
        requires
            old(context).wf(),
        ensures
            final(context).wf(),
            spec_nav_frame(*old(context), *final(context)),
            ({
                let l = old(context).active_list();
                let l2 = final(context).active_list();
                match l.index {
                    None => l2 == l && !refreshed,
                    Some(i) => l2 == l.spec_moved(
                        if i > self.movement {
                            i - self.movement
                        } else {
                            0
                        },
                        view.rows as int,
                        old(context).config_t.scroll_offset as int,
                    ) && refreshed,
                }
            }),
    {
        let movement: Option<usize> = {
            let curr_list = &context.tabs[context.curr_tab_index].curr_list;
            match curr_list.index {
                Some(idx) => Some(
                    if idx > self.movement {
                        idx - self.movement
                    } else {
                        0
                    },
                ),
                None => None,
            }
        };
        match movement {
            Some(s) => cursor_move(s, context, view),
            None => false,
        }
    }
}

/// Move the selection half a page toward the start of the list.
#[derive(Clone, Debug)]
pub struct CursorMovePageUp;

impl CursorMovePageUp {
    pub fn new() -> (r: CursorMovePageUp) {
        CursorMovePageUp
    }

    pub fn command() -> (r: &'static str)
        ensures
            r@ == "cursor_move_page_up"@,
    {
        "cursor_move_page_up"
    }

    /// Moves the selection half a page up, stopping at the first entry.
    /// The half page is derived from the visible column count.
    pub fn execute(&self, context: &mut Context, view: &ViewGeometry) -> (refreshed: bool)
        requires
            old(context).wf(),
        ensures
            final(context).wf(),
            spec_nav_frame(*old(context), *final(context)),
            ({
                let l = old(context).active_list();
                let l2 = final(context).active_list();
                let half_page = view.cols as int / 2;
                match l.index {
                    None => l2 == l && !refreshed,
                    Some(i) => l2 == l.spec_moved(
                        if i > half_page {
                            i - half_page
                        } else {
                            0
                        },
                        view.rows as int,
                        old(context).config_t.scroll_offset as int,
                    ) && refreshed,
                }
            }),
    {
        let movement: Option<usize> = {
            let curr_list = &context.tabs[context.curr_tab_index].curr_list;
            let half_page = view.cols / 2;
            match curr_list.index {
                Some(idx) => Some(
                    if idx > half_page {
                        idx - half_page
                    } else {
                        0
                    },
                ),
                None => None,
            }
        };
        match movement {
            Some(s) => cursor_move(s, context, view),
            None => false,
        }
    }
}

/// Move the selection half a page toward the end of the list.
#[derive(Clone, Debug)]
pub struct CursorMovePageDown;

impl CursorMovePageDown {
    pub fn new() -> (r: CursorMovePageDown) {
        CursorMovePageDown
    }

    pub fn command() -> (r: &'static str)
        ensures
            r@ == "cursor_move_page_down"@,
    {
        "cursor_move_page_down"
    }

    /// Moves the selection half a page down, clamped to the last entry.
    /// The half page is derived from the visible column count.
    pub fn execute(&self, context: &mut Context, view: &ViewGeometry) -> (refreshed: bool)
        requires
            old(context).wf(),
        ensures
            final(context).wf(),
            spec_nav_frame(*old(context), *final(context)),
            ({
                let l = old(context).active_list();
                let l2 = final(context).active_list();
                let half_page = view.cols as int / 2;
                match l.index {
                    None => l2 == l && !refreshed,
                    Some(i) => l2 == l.spec_moved(
                        i + half_page,
                        view.rows as int,
                        old(context).config_t.scroll_offset as int,
                    ) && refreshed,
                }
            }),
    {
        let movement: Option<usize> = {
            let curr_list = &context.tabs[context.curr_tab_index].curr_list;
            proof {
                vstd::std_specs::vec::axiom_spec_len(&curr_list.contents);
            }
            let half_page = view.cols / 2;
            match curr_list.index {
                Some(idx) => Some(
                    if idx <= usize::MAX - half_page {
                        idx + half_page
                    } else {
                        usize::MAX
                    },
                ),
                None => None,
            }
        };
        match movement {
            Some(s) => cursor_move(s, context, view),
            None => false,
        }
    }
}

/// Jump to the first entry.
#[derive(Clone, Debug)]
pub struct CursorMoveHome;

impl CursorMoveHome {
    pub fn new() -> (r: CursorMoveHome) {
        CursorMoveHome
    }

    pub fn command() -> (r: &'static str)
        ensures
            r@ == "cursor_move_home"@,
    {
        "cursor_move_home"
    }

    /// Moves the selection to the first entry of a non-empty listing.
    pub fn execute(&self, context: &mut Context, view: &ViewGeometry) -> (refreshed: bool)
        requires
            old(context).wf(),
        ensures
            final(context).wf(),
            spec_nav_frame(*old(context), *final(context)),
            ({
                let l = old(context).active_list();
                let l2 = final(context).active_list();
                match l.index {
                    None => l2 == l && !refreshed,
                    Some(_) => l2 == l.spec_moved(
                        0,
                        view.rows as int,
                        old(context).config_t.scroll_offset as int,
                    ) && refreshed,
                }
            }),
    {
        let movement: Option<usize> = {
            let len = context.tabs[context.curr_tab_index].curr_list.contents.len();
            if len == 0 {
                None
            } else {
                Some(0)
            }
        };
        match movement {
            Some(s) => cursor_move(s, context, view),
            None => false,
        }
    }
}

/// Jump to the last entry.
#[derive(Clone, Debug)]
pub struct CursorMoveEnd;

impl CursorMoveEnd {
    pub fn new() -> (r: CursorMoveEnd) {
        CursorMoveEnd
    }

    pub fn command() -> (r: &'static str)
        ensures
            r@ == "cursor_move_end"@,
    {
        "cursor_move_end"
    }

    /// Moves the selection to the last entry of a non-empty listing.
    pub fn execute(&self, context: &mut Context, view: &ViewGeometry) -> (refreshed: bool)
        requires
            old(context).wf(),
        ensures
            final(context).wf(),
            spec_nav_frame(*old(context), *final(context)),
            ({
                let l = old(context).active_list();
                let l2 = final(context).active_list();
                match l.index {
                    None => l2 == l && !refreshed,
                    Some(_) => l2 == l.spec_moved(
                        l.contents@.len() - 1,
                        view.rows as int,
                        old(context).config_t.scroll_offset as int,
                    ) && refreshed,
                }
            }),
    {
        let movement: Option<usize> = {
            let len = context.tabs[context.curr_tab_index].curr_list.contents.len();
            if len == 0 {
                None
            } else {
                Some(len - 1)
            }
        };
        match movement {
            Some(s) => cursor_move(s, context, view),
            None => false,
        }
    }
}

} // verus!
