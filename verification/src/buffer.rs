//! What the standard library's `String` does to the text it holds, for the
//! three operations that edit the command buffer. A `String` is seen as the
//! sequence of its characters.

use vstd::prelude::*;

verus! {

/// `String::push` puts the character at the end of the text and leaves the
/// rest as it was. Taken from the standard library's documentation, not proved.
pub assume_specification[ String::push ](text: &mut String, ch: char)
    ensures
        final(text)@ == old(text)@.push(ch),
;

/// `String::pop` takes the last character off the text and returns it; on an
/// empty text it returns `None` and changes nothing. Taken from the standard
/// library's documentation, not proved.
pub assume_specification[ String::pop ](text: &mut String) -> (last: Option<char>)
    ensures
        old(text)@.len() == 0 ==> last.is_none() && final(text)@ == old(text)@,
        old(text)@.len() > 0 ==> last == Some(old(text)@.last()) && final(text)@ == old(
            text,
        )@.drop_last(),
;

/// `String::clear` removes every character of the text. Taken from the
/// standard library's documentation, not proved.
pub assume_specification[ String::clear ](text: &mut String)
    ensures
        final(text)@ == Seq::<char>::empty(),
;

} // verus!
