//! Navigation core of a terminal file browser.
//!
//! The crate tracks which entry of a directory listing is selected, derives
//! the scrolled viewport that keeps the selection visible, carries out the
//! movement commands (step, page, home, end), and loads user settings from
//! layered TOML files with a fail-soft fallback to defaults.  Rendering and
//! all file-system scanning live outside this crate; callers hand in plain
//! values (row counts, file text) and read plain values back.

pub mod config;
pub mod context;
pub mod cursor_move;
pub mod dirlist;
pub mod line_nums;
pub mod pagination;
pub mod view;
