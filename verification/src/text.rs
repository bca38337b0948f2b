//! What the engine takes on trust about the standard library's `String`.
use vstd::prelude::*;

verus! {

/// `String::push` of the standard library, which appends one character:
/// the text afterwards is the text before with `c` at its end.
pub assume_specification[ String::push ](text: &mut String, c: char)
    ensures
        final(text)@ == old(text)@.push(c),
;

/// `String::pop` of the standard library, which removes the last character
/// and hands it out: an empty text stays empty and gives nothing, any other
/// text loses its last character, which is the result.
pub assume_specification[ String::pop ](text: &mut String) -> (last: Option<char>)
    ensures
        match last {
            Some(c) => {
                &&& old(text)@.len() > 0
                &&& c == old(text)@.last()
                &&& final(text)@ == old(text)@.drop_last()
            },
            None => old(text)@.len() == 0 && final(text)@ == old(text)@,
        },
;

} // verus!
