//! Applying a line-numbering change to the shared settings.

use vstd::prelude::*;

use crate::config::LineNumberStyle;
use crate::context::Context;

verus! {

/// Switches the configured line-numbering style, leaving every other
/// setting and the navigation state untouched.  The embedder must then
/// reload the displayed directory listing so already-rendered entries pick
/// up the new rule.
pub fn switch_line_numbering(context: &mut Context, style: LineNumberStyle)
    ensures
        final(context).config_t.line_nums == style,
        final(context).config_t.scroll_offset == old(context).config_t.scroll_offset,
        final(context).config_t.tilde_in_titlebar == old(context).config_t.tilde_in_titlebar,
        final(context).tabs == old(context).tabs,
        final(context).curr_tab_index == old(context).curr_tab_index,
        final(context).username == old(context).username,
        final(context).hostname == old(context).hostname,
        old(context).wf() ==> final(context).wf(),
{
    context.config_t.line_nums = style;
}

} // verus!
