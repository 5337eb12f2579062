//! The process-wide navigation state: open tabs, the active tab, the loaded
//! settings, and the environment strings the title bar shows.

use vstd::prelude::*;

use crate::config::AppConfig;
use crate::dirlist::DirList;

verus! {

/// One open tab and the directory listing it displays.
#[derive(Clone, Debug)]
pub struct Tab {
    pub curr_list: DirList,
}

impl Tab {
    pub open spec fn wf(self) -> bool {
        self.curr_list.wf()
    }

    pub fn new(curr_list: DirList) -> (r: Tab)
        ensures
            r.curr_list == curr_list,
    {
        Tab { curr_list }
    }
}

/// The single execution thread's view of the whole application: every open
/// tab, which one is active, the loaded settings, and the user/host names
/// shown in the title bar.
#[derive(Clone, Debug)]
pub struct Context {
    pub tabs: Vec<Tab>,
    pub curr_tab_index: usize,
    pub config_t: AppConfig,
    pub username: String,
    pub hostname: String,
}

impl Context {
    /// The active tab exists and every tab's listing is internally
    /// consistent.
    pub open spec fn wf(self) -> bool {
        &&& (self.curr_tab_index as int) < self.tabs@.len()
        &&& forall|k: int|
            0 <= k < self.tabs@.len() ==> (#[trigger] self.tabs@[k]).wf()
    }

    /// The listing of the active tab.
    pub open spec fn active_list(self) -> DirList {
        self.tabs@[self.curr_tab_index as int].curr_list
    }
}

/// Everything a movement command leaves alone: the set of tabs (but for the
/// active one), the active-tab choice, the settings, and the environment
/// strings.
pub open spec fn spec_nav_frame(pre: Context, post: Context) -> bool {
    &&& post.tabs@.len() == pre.tabs@.len()
    &&& post.curr_tab_index == pre.curr_tab_index
    &&& post.config_t == pre.config_t
    &&& post.username == pre.username
    &&& post.hostname == pre.hostname
    &&& forall|k: int|
        0 <= k < pre.tabs@.len() && k != pre.curr_tab_index ==> (#[trigger] post.tabs@[k])
            == pre.tabs@[k]
}

} // verus!
