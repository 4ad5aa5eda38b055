//! The profiles tab of the home window: the list of profiles and what can
//! be done with the selected one.

use vstd::prelude::*;
use crate::cursor::{in_list, move_selection, moved};
use crate::key::Key;
use crate::widget::Widget;
use crate::window::{Route, Tag, Window, bare};

verus! {

/// The list of known profiles, by identifier, with one of them selected.
#[derive(Clone, Debug, PartialEq, Eq)]
pub struct ProfilesTab {
    /// Identifiers of the listed profiles, in the order shown.
    pub ids: Vec<String>,
    /// Position of the selected profile.
    pub selected: usize,
}

impl ProfilesTab {
    /// The selection is inside the list, or 0 where the list is empty.
    pub open spec fn wf(&self) -> bool {
        in_list(self.selected, self.ids.len())
    }

    /// The key that opens the profile creator on a new profile.
    pub open spec fn is_create(key: Key) -> bool {
        key == Key::Char('n')
    }

    /// An empty list.
    pub fn new() -> (tab: ProfilesTab)
        ensures
            tab.ids@.len() == 0,
            tab.selected == 0,
            tab.wf(),
    {
        ProfilesTab { ids: Vec::new(), selected: 0 }
    }

    /// Replaces the list. The first profile becomes the selected one.
    pub fn set_ids(&mut self, ids: Vec<String>)
        ensures
            final(self).ids == ids,
            final(self).selected == 0,
            final(self).wf(),
    {
        self.ids = ids;
        self.selected = 0;
    }
}

impl Widget for ProfilesTab {
    /// Confirm opens the profile creator on the selected profile, if there
    /// is one; the create key opens it on a new profile.
    open spec fn route(&self, key: Key) -> Option<Route> {
        if key.is_confirm() {
            if self.selected < self.ids.len() {
                Some(Route { tag: Tag::ProfileCreator, id: self.ids[self.selected as int]@ })
            } else {
                None
            }
        } else if Self::is_create(key) {
            Some(bare(Tag::ProfileCreator))
        } else {
            None
        }
    }

    open spec fn steps(&self, key: Key, next: &ProfilesTab) -> bool {
        &&& next.ids == self.ids
        &&& next.selected == moved(self.selected, self.ids.len(), key)
    }

    fn handle_events(&mut self, key: Key) -> (r: Option<Window>)
        ensures
            old(self).wf() ==> final(self).wf(),
    {
        match key {
            Key::Char(c) => {
                if c == '\n' {
                    if self.selected < self.ids.len() {
                        Some(Window::ProfileCreator(self.ids[self.selected].clone()))
                    } else {
                        None
                    }
                } else if c == 'n' {
                    Some(Window::plain(Tag::ProfileCreator))
                } else {
                    None
                }
            },
            _ => {
                self.selected = move_selection(self.selected, self.ids.len(), key);
                None
            },
        }
    }
}

} // verus!
