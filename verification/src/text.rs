//! What is taken on trust of the strings of std, where vstd does not say
//! it.

use vstd::prelude::*;

verus! {

/// `String::push` of std appends the character to the string.
pub assume_specification[ String::push ](text: &mut String, character: char)
    ensures
        final(text)@ == old(text)@.push(character),
;

/// `String::pop` of std takes the last character off the string and returns
/// it, and returns `None` and leaves the string as it is where there is none.
pub assume_specification[ String::pop ](text: &mut String) -> (last: Option<char>)
    ensures
        old(text)@.len() > 0 ==> last == Some(old(text)@.last()) && final(text)@ == old(
            text,
        )@.drop_last(),
        old(text)@.len() == 0 ==> last.is_none() && final(text)@ == old(text)@,
;

} // verus!
