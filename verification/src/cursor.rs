//! Moving a selection through a list without leaving it.

use vstd::prelude::*;
use crate::key::Key;

verus! {

/// Whether `selected` is a proper selection in a list of `len` items: a
/// position inside the list, or 0 where the list is empty.
pub open spec fn in_list(selected: usize, len: usize) -> bool {
    if len == 0 {
        selected == 0
    } else {
        selected < len
    }
}

/// Where the selection stands after `key`: `Up` moves it one towards the
/// front unless it is there, `Down` one towards the back unless it is at the
/// last item, and no other key moves it.
pub open spec fn moved(selected: usize, len: usize, key: Key) -> usize {
    match key {
        Key::Up => if selected > 0 {
            (selected - 1) as usize
        } else {
            selected
        },
        Key::Down => if selected < len && selected + 1 < len {
            (selected + 1) as usize
        } else {
            selected
        },
        _ => selected,
    }
}

/// The selection brought back into a list of `len` items: unchanged where
/// it is inside, else the last item, or 0 in an empty list.
pub open spec fn clamped(selected: usize, len: usize) -> usize {
    if selected < len {
        selected
    } else if len == 0 {
        0
    } else {
        (len - 1) as usize
    }
}

/// Moves the selection by one key.
pub fn move_selection(selected: usize, len: usize, key: Key) -> (r: usize)
    ensures
        r == moved(selected, len, key),
        in_list(selected, len) ==> in_list(r, len),
{
    match key {
        Key::Up => if selected > 0 {
            selected - 1
        } else {
            selected
        },
        Key::Down => if selected < len && selected + 1 < len {
            selected + 1
        } else {
            selected
        },
        _ => selected,
    }
}

/// Brings the selection back into a list of `len` items.
pub fn clamp_selection(selected: usize, len: usize) -> (r: usize)
    ensures
        r == clamped(selected, len),
        in_list(r, len),
{
    if selected < len {
        selected
    } else if len == 0 {
        0
    } else {
        len - 1
    }
}

} // verus!
