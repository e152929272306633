//! What this crate takes on trust about the standard library's `String`.
//!
//! A `String` is seen as the sequence of its characters. The two statements
//! below are assumed, not proved; they say what the standard library's
//! documentation says of the two methods.

use vstd::prelude::*;

verus! {

/// Assumed of `String::push`: it appends the given character to the end of
/// the string and changes nothing else.
pub assume_specification[ String::push ](s: &mut String, ch: char)
    ensures
        final(s)@ == old(s)@.push(ch),
;

/// Assumed of `String::pop`: it removes the last character of the string and
/// returns it; on an empty string it returns `None` and leaves the string
/// empty.
pub assume_specification[ String::pop ](s: &mut String) -> (popped: Option<char>)
    ensures
        old(s)@.len() == 0 ==> popped.is_none() && final(s)@ == old(s)@,
        old(s)@.len() > 0 ==> popped == Some(old(s)@.last()) && final(s)@ == old(s)@.drop_last(),
;

} // verus!
