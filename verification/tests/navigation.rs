use joshuto_nav::config::AppConfig;
use joshuto_nav::config::LineNumberStyle;
use joshuto_nav::context::Context;
use joshuto_nav::context::Tab;
use joshuto_nav::cursor_move::CursorMoveDown;
use joshuto_nav::cursor_move::CursorMoveEnd;
use joshuto_nav::cursor_move::CursorMoveHome;
use joshuto_nav::cursor_move::CursorMovePageDown;
use joshuto_nav::cursor_move::CursorMovePageUp;
use joshuto_nav::cursor_move::CursorMoveUp;
use joshuto_nav::cursor_move::cursor_move;
use joshuto_nav::dirlist::DirList;
use joshuto_nav::dirlist::Entry;
use joshuto_nav::line_nums::switch_line_numbering;
use joshuto_nav::pagination::PaginationState;
use joshuto_nav::view::ViewGeometry;

fn entries(n: usize) -> Vec<Entry> {
    let mut v = Vec::new();
    for k in 0..n {
        v.push(Entry { name: format!("entry{}", k), is_directory: false });
    }
    v
}

fn context_with(len: usize, index: Option<usize>, offset: usize, scroll_margin: usize) -> Context {
    Context {
        tabs: vec![Tab {
            curr_list: DirList {
                contents: entries(len),
                index,
                pagestate: PaginationState { offset },
            },
        }],
        curr_tab_index: 0,
        config_t: AppConfig {
            scroll_offset: scroll_margin,
            tilde_in_titlebar: true,
            line_nums: LineNumberStyle::NoNumbers,
        },
        username: "user".to_string(),
        hostname: "host".to_string(),
    }
}

fn active(ctx: &Context) -> &DirList {
    &ctx.tabs[ctx.curr_tab_index].curr_list
}

#[test]
fn step_down_scrolls_by_the_deficit() {
    // 100 entries in a 20-row window with a margin of 3: moving from 10 to 25
    // exceeds the upper band edge 16 by 9, so the offset becomes 9.
    let mut ctx = context_with(100, Some(10), 0, 3);
    let view = ViewGeometry::new(20, 80);
    let refreshed = CursorMoveDown::new(15).execute(&mut ctx, &view);
    assert!(refreshed);
    assert_eq!(active(&ctx).index, Some(25));
    assert_eq!(active(&ctx).pagestate.offset, 9);
}

#[test]
fn page_up_stops_at_the_first_entry() {
    // A half page of 10 (20 columns) from index 5 targets 0, and the offset
    // follows down to 0.
    let mut ctx = context_with(50, Some(5), 2, 3);
    let view = ViewGeometry::new(20, 20);
    let refreshed = CursorMovePageUp::new().execute(&mut ctx, &view);
    assert!(refreshed);
    assert_eq!(active(&ctx).index, Some(0));
    assert_eq!(active(&ctx).pagestate.offset, 0);
}

#[test]
fn empty_list_commands_are_silent_no_ops() {
    let view = ViewGeometry::new(20, 80);
    let mut ctx = context_with(0, None, 0, 3);
    assert!(!CursorMoveDown::new(3).execute(&mut ctx, &view));
    assert!(!CursorMoveUp::new(3).execute(&mut ctx, &view));
    assert!(!CursorMovePageUp::new().execute(&mut ctx, &view));
    assert!(!CursorMovePageDown::new().execute(&mut ctx, &view));
    assert!(!CursorMoveHome::new().execute(&mut ctx, &view));
    assert!(!CursorMoveEnd::new().execute(&mut ctx, &view));
    assert_eq!(active(&ctx).index, None);
    assert_eq!(active(&ctx).pagestate.offset, 0);
}

#[test]
fn index_is_clamped_into_bounds() {
    let mut ctx = context_with(10, Some(4), 0, 2);
    let view = ViewGeometry::new(5, 80);
    let refreshed = CursorMoveDown::new(1000).execute(&mut ctx, &view);
    assert!(refreshed);
    assert_eq!(active(&ctx).index, Some(9));
    // The selection stays visible: offset <= 9 < offset + 5.
    let offset = active(&ctx).pagestate.offset;
    assert!(offset <= 9 && 9 < offset + 5);
    // And the offset never exceeds total - rows.
    assert!(offset <= 5);
}

#[test]
fn step_inside_the_margin_band_keeps_the_offset() {
    // Band of [3, 16] at offset 0: moving from 10 to 11 stays inside it.
    let mut ctx = context_with(100, Some(10), 0, 3);
    let view = ViewGeometry::new(20, 80);
    CursorMoveDown::new(1).execute(&mut ctx, &view);
    assert_eq!(active(&ctx).index, Some(11));
    assert_eq!(active(&ctx).pagestate.offset, 0);
}

#[test]
fn home_is_idempotent() {
    let view = ViewGeometry::new(20, 80);
    let mut ctx = context_with(100, Some(80), 75, 3);
    CursorMoveHome::new().execute(&mut ctx, &view);
    let once = (active(&ctx).index, active(&ctx).pagestate.offset);
    CursorMoveHome::new().execute(&mut ctx, &view);
    let twice = (active(&ctx).index, active(&ctx).pagestate.offset);
    assert_eq!(once, (Some(0), 0));
    assert_eq!(once, twice);
}

#[test]
fn end_is_idempotent() {
    let view = ViewGeometry::new(20, 80);
    let mut ctx = context_with(100, Some(10), 0, 3);
    CursorMoveEnd::new().execute(&mut ctx, &view);
    let once = (active(&ctx).index, active(&ctx).pagestate.offset);
    CursorMoveEnd::new().execute(&mut ctx, &view);
    let twice = (active(&ctx).index, active(&ctx).pagestate.offset);
    assert_eq!(once, (Some(99), 80));
    assert_eq!(once, twice);
}

#[test]
fn step_up_stops_at_zero() {
    let mut ctx = context_with(30, Some(4), 0, 2);
    let view = ViewGeometry::new(10, 80);
    CursorMoveUp::new(9).execute(&mut ctx, &view);
    assert_eq!(active(&ctx).index, Some(0));
    assert_eq!(active(&ctx).pagestate.offset, 0);
}

#[test]
fn page_down_clamps_to_the_last_entry() {
    let mut ctx = context_with(12, Some(8), 0, 2);
    let view = ViewGeometry::new(6, 20);
    CursorMovePageDown::new().execute(&mut ctx, &view);
    assert_eq!(active(&ctx).index, Some(11));
    assert_eq!(active(&ctx).pagestate.offset, 6);
}

#[test]
fn short_list_never_scrolls() {
    // Four entries in a 10-row window: the whole list fits, offset stays 0.
    let mut ctx = context_with(4, Some(0), 0, 2);
    let view = ViewGeometry::new(10, 80);
    CursorMoveEnd::new().execute(&mut ctx, &view);
    assert_eq!(active(&ctx).index, Some(3));
    assert_eq!(active(&ctx).pagestate.offset, 0);
}

#[test]
fn cursor_move_targets_an_explicit_index() {
    let mut ctx = context_with(40, Some(0), 0, 3);
    let view = ViewGeometry::new(10, 80);
    let refreshed = cursor_move(20, &mut ctx, &view);
    assert!(refreshed);
    assert_eq!(active(&ctx).index, Some(20));
    // 20 exceeds the band edge 6 by 14, so the offset becomes 14.
    assert_eq!(active(&ctx).pagestate.offset, 14);
}

#[test]
fn zero_row_window_clamps_but_never_scrolls() {
    let mut ctx = context_with(10, Some(2), 4, 3);
    let view = ViewGeometry::new(0, 80);
    let refreshed = cursor_move(7, &mut ctx, &view);
    assert!(refreshed);
    assert_eq!(active(&ctx).index, Some(7));
    assert_eq!(active(&ctx).pagestate.offset, 0);
}

#[test]
fn command_names_match_the_keybinding_table() {
    assert_eq!(CursorMoveDown::command(), "cursor_move_up");
    assert_eq!(CursorMoveUp::command(), "cursor_move_down");
    assert_eq!(CursorMovePageUp::command(), "cursor_move_page_up");
    assert_eq!(CursorMovePageDown::command(), "cursor_move_page_down");
    assert_eq!(CursorMoveHome::command(), "cursor_move_home");
    assert_eq!(CursorMoveEnd::command(), "cursor_move_end");
}

#[test]
fn new_list_selects_the_first_entry() {
    let list = DirList::new(entries(3));
    assert_eq!(list.index, Some(0));
    assert_eq!(list.pagestate.offset, 0);
    let empty = DirList::new(entries(0));
    assert_eq!(empty.index, None);
}

#[test]
fn switch_line_numbering_only_touches_the_style() {
    let mut ctx = context_with(5, Some(2), 0, 3);
    switch_line_numbering(&mut ctx, LineNumberStyle::Relative);
    assert_eq!(ctx.config_t.line_nums, LineNumberStyle::Relative);
    assert_eq!(ctx.config_t.scroll_offset, 3);
    assert!(ctx.config_t.tilde_in_titlebar);
    assert_eq!(active(&ctx).index, Some(2));
}
