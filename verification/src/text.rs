//! Appending to a string.

use vstd::prelude::*;

verus! {

/// `String::push_str`: appends the given text to the end of the string.
pub assume_specification[ String::push_str ](text: &mut String, tail: &str)
    ensures
        final(text)@ == old(text)@ + tail@,
;

} // verus!
