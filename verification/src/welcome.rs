//! The entry screen.

use vstd::prelude::*;
use crate::key::Key;
use crate::widget::Widget;
use crate::window::{Route, Tag, Window, bare};

verus! {

/// The entry screen. It keeps no state of its own.
#[derive(Clone, Copy, Debug, PartialEq, Eq, Structural)]
pub struct Welcome {}

impl Welcome {
    /// The entry screen.
    pub fn new() -> (w: Welcome)
        ensures
            w == (Welcome {  }),
    {
        Welcome {  }
    }
}

impl Widget for Welcome {
    /// Confirm leads to the home window; every other key does nothing.
    open spec fn route(&self, key: Key) -> Option<Route> {
        if key.is_confirm() {
            Some(bare(Tag::Home))
        } else {
            None
        }
    }

    open spec fn steps(&self, key: Key, next: &Welcome) -> bool {
        *next == *self
    }

    fn handle_events(&mut self, key: Key) -> (r: Option<Window>) {
        if key.confirms() {
            Some(Window::plain(Tag::Home))
        } else {
            None
        }
    }
}

} // verus!
