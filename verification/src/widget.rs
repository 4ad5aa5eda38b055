//! What every screen and every part of a screen can do with a key.

use vstd::prelude::*;
use crate::key::Key;
use crate::window::{Route, Window, target};

verus! {

/// A unit that takes key presses. One key either changes the unit's own
/// state and asks for nothing, or asks the caller to make another window
/// current.
pub trait Widget: Sized {
    /// The transition that `key` asks for in this state, if any.
    spec fn route(&self, key: Key) -> Option<Route>;

    /// Whether `next` is this unit's state after `key`.
    spec fn steps(&self, key: Key, next: &Self) -> bool;

    /// Handles one key press.
    fn handle_events(&mut self, key: Key) -> (r: Option<Window>)
        ensures
            target(r) == old(self).route(key),
            old(self).steps(key, final(self)),
    ;
}

} // verus!
