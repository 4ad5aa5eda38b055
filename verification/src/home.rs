//! The home window: two tabs, the profiles tab and the navigation strip.

use vstd::prelude::*;
use crate::bottom_nav::BottomNav;
use crate::channel::{open_queue, take_waiting};
use crate::key::Key;
use crate::profile::Version;
use crate::profiles_tab::ProfilesTab;
use crate::widget::Widget;
use crate::window::{Route, Tag, Window, bare, target};

verus! {

/// Index of the tab that shows the profiles.
pub const PROFILES_TAB: usize = 1;

/// The home window.
pub struct Home {
    /// The tab shown: 0 is the primary tab, 1 the profiles tab.
    pub tab_index: usize,
    pub profiles_tab: ProfilesTab,
    pub bottom_nav: BottomNav,
    /// The end of the queue that is handed to whoever fetches versions.
    pub sender: Option<crossbeam_channel::Sender<Vec<Version>>>,
    /// The end of the queue from which arrived versions are taken.
    pub receiver: Option<crossbeam_channel::Receiver<Vec<Version>>>,
}

/// The tab shown after `key`: the tab-switch key goes from the profiles tab
/// to the primary tab and from any other to the profiles tab; no other key
/// changes the tab.
pub open spec fn switched(tab_index: usize, key: Key) -> usize {
    if key.is_tab_switch() {
        if tab_index == PROFILES_TAB {
            0
        } else {
            PROFILES_TAB
        }
    } else {
        tab_index
    }
}

impl Home {
    /// The tab index names a tab, and both parts are well formed.
    pub open spec fn wf(&self) -> bool {
        &&& self.tab_index <= PROFILES_TAB
        &&& self.profiles_tab.wf()
        &&& self.bottom_nav.wf()
    }

    /// Whether the queue's ends are the same in `next` as here.
    pub open spec fn same_queue(&self, next: &Home) -> bool {
        &&& next.sender == self.sender
        &&& next.receiver == self.receiver
    }

    /// The window that handling `key` asks for in this state: what the
    /// window's own handler asks for, if anything, else what the part asks
    /// for that the tab index then selects.
    pub open spec fn requested(&self, key: Key) -> Option<Route> {
        if self.route(key) is Some {
            self.route(key)
        } else if switched(self.tab_index, key) == PROFILES_TAB {
            self.profiles_tab.route(key)
        } else {
            self.bottom_nav.route(key)
        }
    }

    /// Whether `next` and `r` are what handling `key` gives in this state.
    ///
    /// The window's own handler comes first. Where it asks for a window,
    /// that request is the result and neither part sees the key. Where it
    /// does not, exactly one part gets the key: the profiles tab if that is
    /// the tab then shown, else the navigation strip. The other part stays
    /// as it was.
    pub open spec fn dispatched(&self, key: Key, next: &Home, r: Option<Route>) -> bool {
        &&& self.same_queue(next)
        &&& next.tab_index == switched(self.tab_index, key)
        &&& if self.route(key) is Some {
            &&& r == self.route(key)
            &&& next.profiles_tab == self.profiles_tab
            &&& next.bottom_nav == self.bottom_nav
        } else if next.tab_index == PROFILES_TAB {
            &&& r == self.profiles_tab.route(key)
            &&& self.profiles_tab.steps(key, &next.profiles_tab)
            &&& next.bottom_nav == self.bottom_nav
        } else {
            &&& r == self.bottom_nav.route(key)
            &&& self.bottom_nav.steps(key, &next.bottom_nav)
            &&& next.profiles_tab == self.profiles_tab
        }
    }

    /// A home window on its primary tab, with an empty list of profiles and
    /// no queue.
    pub fn new() -> (h: Home)
        ensures
            h.tab_index == 0,
            h.profiles_tab.ids@.len() == 0,
            h.profiles_tab.selected == 0,
            h.bottom_nav.selected == 0,
            h.sender is None,
            h.receiver is None,
            h.wf(),
    {
        Home {
            tab_index: 0,
            profiles_tab: ProfilesTab::new(),
            bottom_nav: BottomNav::new(),
            sender: None,
            receiver: None,
        }
    }

    /// Opens a fresh queue and keeps both of its ends, in place of any
    /// earlier one.
    pub fn connect(&mut self)
        ensures
            final(self).sender is Some,
            final(self).receiver is Some,
            final(self).tab_index == old(self).tab_index,
            final(self).profiles_tab == old(self).profiles_tab,
            final(self).bottom_nav == old(self).bottom_nav,
    {
        let (sender, receiver) = open_queue();
        self.sender = Some(sender);
        self.receiver = Some(receiver);
    }

    /// Takes one list of versions from the queue if one is waiting there.
    /// Never waits. Without a queue nothing can arrive.
    pub fn poll(&self) -> (arrived: Option<Vec<Version>>)
        ensures
            self.receiver is None ==> arrived is None,
    {
        match &self.receiver {
            Some(receiver) => match take_waiting(receiver) {
                Ok(versions) => Some(versions),
                Err(_) => None,
            },
            None => None,
        }
    }

    /// Handles one key for the whole window: first the window's own
    /// handler, then, unless that asked for a window, the one part that the
    /// tab index selects.
    pub fn dispatch(&mut self, key: Key) -> (r: Option<Window>)
        ensures
            old(self).dispatched(key, final(self), target(r)),
            target(r) == old(self).requested(key),
            old(self).wf() ==> final(self).wf(),
    {
        match self.handle_events(key) {
            Some(route) => Some(route),
            None => {
                if self.tab_index == PROFILES_TAB {
                    self.profiles_tab.handle_events(key)
                } else {
                    self.bottom_nav.handle_events(key)
                }
            },
        }
    }
}

impl Widget for Home {
    /// The window's own handler asks for the welcome screen on cancel and
    /// for nothing on any other key.
    open spec fn route(&self, key: Key) -> Option<Route> {
        if key.is_cancel() {
            Some(bare(Tag::Welcome))
        } else {
            None
        }
    }

    /// The window's own handler changes the tab index and nothing else.
    open spec fn steps(&self, key: Key, next: &Home) -> bool {
        &&& self.same_queue(next)
        &&& next.tab_index == switched(self.tab_index, key)
        &&& next.profiles_tab == self.profiles_tab
        &&& next.bottom_nav == self.bottom_nav
    }

    fn handle_events(&mut self, key: Key) -> (r: Option<Window>)
        ensures
            old(self).wf() ==> final(self).wf(),
    {
        if key.cancels() {
            Some(Window::plain(Tag::Welcome))
        } else {
            if key.switches_tab() {
                if self.tab_index == PROFILES_TAB {
                    self.tab_index = 0;
                } else {
                    self.tab_index = PROFILES_TAB;
                }
            }
            None
        }
    }
}

} // verus!
