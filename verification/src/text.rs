//! Editing the end of a text buffer.

use vstd::prelude::*;

verus! {

/// `String::push` of the standard library: the buffer afterwards is the
/// buffer before with `c` added at its end.
#[verifier::external_body]
pub(crate) fn push_char(buffer: &mut String, c: char)
    ensures
        final(buffer)@ == old(buffer)@.push(c),
{
    buffer.push(c)
}

/// `String::pop` of the standard library: on an empty buffer it returns
/// `None` and changes nothing; otherwise it removes the last character and
/// returns it.
#[verifier::external_body]
pub(crate) fn pop_char(buffer: &mut String) -> (last: Option<char>)
    ensures
        old(buffer)@.len() == 0 ==> last is None && final(buffer)@ == old(buffer)@,
        old(buffer)@.len() > 0 ==> last == Some(old(buffer)@.last()) && final(buffer)@ == old(
            buffer,
        )@.drop_last(),
{
    buffer.pop()
}

} // verus!
