//! Editing a line of text at its end.

use vstd::prelude::*;

verus! {

/// `String::push`: appends `c` to the end of `text`.
#[verifier::external_body]
pub(crate) fn push_char(text: &mut String, c: char)
    ensures
        final(text)@ == old(text)@.push(c),
{
    text.push(c);
}

/// `String::pop`: removes the last character of `text` and returns it, or
/// returns `None` and leaves `text` empty where it was empty.
#[verifier::external_body]
pub(crate) fn pop_char(text: &mut String) -> (last: Option<char>)
    ensures
        old(text)@.len() == 0 ==> last is None && final(text)@ == old(text)@,
        old(text)@.len() > 0 ==> {
            &&& last == Some(old(text)@.last())
            &&& final(text)@ == old(text)@.drop_last()
        },
{
    text.pop()
}

/// `text` without its last character; empty text stays empty.
pub open spec fn without_last(text: Seq<char>) -> Seq<char> {
    if text.len() == 0 {
        text
    } else {
        text.drop_last()
    }
}

/// Deletes the last character of `text`, if it has one.
pub fn backspace(text: &mut String)
    ensures
        final(text)@ == without_last(old(text)@),
{
    let _ = pop_char(text);
}

} // verus!
