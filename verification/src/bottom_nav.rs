//! The navigation strip at the bottom of the home window.

use vstd::prelude::*;
use crate::key::Key;
use crate::widget::Widget;
use crate::window::{Route, Tag, Window, bare};

verus! {

/// Number of entries on the strip.
pub const NAV_ENTRIES: usize = 2;

/// The navigation strip: a row of entries, one of them highlighted.
#[derive(Clone, Copy, Debug, PartialEq, Eq, Structural)]
pub struct BottomNav {
    /// Position of the highlighted entry.
    pub selected: usize,
}

/// The window that the entry at `position` leads to: the first entry opens
/// the profile creator on a new profile, the second goes back to the
/// welcome screen.
pub open spec fn entry_tag(position: usize) -> Tag {
    if position == 0 {
        Tag::ProfileCreator
    } else {
        Tag::Welcome
    }
}

/// Where the highlight stands after `key`: `Left` and `Right` move it by
/// one, and it stops at either end.
pub open spec fn slid(selected: usize, key: Key) -> usize {
    match key {
        Key::Left => if selected > 0 {
            (selected - 1) as usize
        } else {
            selected
        },
        Key::Right => if selected < NAV_ENTRIES - 1 {
            (selected + 1) as usize
        } else {
            selected
        },
        _ => selected,
    }
}

impl BottomNav {
    /// The highlight is on one of the entries.
    pub open spec fn wf(&self) -> bool {
        self.selected < NAV_ENTRIES
    }

    /// A strip with its first entry highlighted.
    pub fn new() -> (nav: BottomNav)
        ensures
            nav.selected == 0,
            nav.wf(),
    {
        BottomNav { selected: 0 }
    }
}

impl Widget for BottomNav {
    /// Confirm opens the highlighted entry; no other key asks for a window.
    open spec fn route(&self, key: Key) -> Option<Route> {
        if key.is_confirm() && self.selected < NAV_ENTRIES {
            Some(bare(entry_tag(self.selected)))
        } else {
            None
        }
    }

    open spec fn steps(&self, key: Key, next: &BottomNav) -> bool {
        next.selected == slid(self.selected, key)
    }

    fn handle_events(&mut self, key: Key) -> (r: Option<Window>)
        ensures
            old(self).wf() ==> final(self).wf(),
    {
        match key {
            Key::Left => {
                if self.selected > 0 {
                    self.selected = self.selected - 1;
                }
                None
            },
            Key::Right => {
                if self.selected < NAV_ENTRIES - 1 {
                    self.selected = self.selected + 1;
                }
                None
            },
            _ => {
                if key.confirms() && self.selected < NAV_ENTRIES {
                    if self.selected == 0 {
                        Some(Window::plain(Tag::ProfileCreator))
                    } else {
                        Some(Window::plain(Tag::Welcome))
                    }
                } else {
                    None
                }
            },
        }
    }
}

} // verus!
