//! Keys and events as the controller sees them.

use vstd::prelude::*;

verus! {

/// One key press, as a terminal reports it.
#[derive(Clone, Copy, Debug, PartialEq, Eq, Structural)]
pub enum Key {
    Backspace,
    Left,
    Right,
    Up,
    Down,
    Home,
    End,
    PageUp,
    PageDown,
    BackTab,
    Delete,
    Insert,
    /// A function key, by its number.
    F(u8),
    /// An ordinary character. Enter arrives as `'\n'`, Tab as `'\t'`.
    Char(char),
    /// A character typed with Alt held.
    Alt(char),
    /// A character typed with Ctrl held.
    Ctrl(char),
    Null,
    Esc,
}

/// What the event source hands out: a key press, or the periodic tick that
/// forces a redraw when nothing was typed.
#[derive(Clone, Copy, Debug, PartialEq, Eq, Structural)]
pub enum Event {
    Input(Key),
    Tick,
}

impl Key {
    /// The key that ends the session, whatever window is current.
    pub open spec fn is_quit(self) -> bool {
        self == Key::Char('q')
    }

    /// The key that confirms: Enter.
    pub open spec fn is_confirm(self) -> bool {
        self == Key::Char('\n')
    }

    /// The key that cancels: Esc.
    pub open spec fn is_cancel(self) -> bool {
        self == Key::Esc
    }

    /// The key that switches between the tabs of the home window: Tab.
    pub open spec fn is_tab_switch(self) -> bool {
        self == Key::Char('\t')
    }

    /// Whether this is the global quit key.
    pub fn quits(self) -> (r: bool)
        ensures
            r == self.is_quit(),
    {
        match self {
            Key::Char(c) => c == 'q',
            _ => false,
        }
    }

    /// Whether this is the confirm key.
    pub fn confirms(self) -> (r: bool)
        ensures
            r == self.is_confirm(),
    {
        match self {
            Key::Char(c) => c == '\n',
            _ => false,
        }
    }

    /// Whether this is the cancel key.
    pub fn cancels(self) -> (r: bool)
        ensures
            r == self.is_cancel(),
    {
        match self {
            Key::Esc => true,
            _ => false,
        }
    }

    /// Whether this is the tab-switch key.
    pub fn switches_tab(self) -> (r: bool)
        ensures
            r == self.is_tab_switch(),
    {
        match self {
            Key::Char(c) => c == '\t',
            _ => false,
        }
    }
}

} // verus!
