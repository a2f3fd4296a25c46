//! What this crate takes for granted about `std::string::String`.

use vstd::prelude::*;

verus! {

/// `String::push` appends the character `ch` to the end of the string and
/// leaves the characters before it as they were. Verus does not check this
/// against the standard library; it is what the method's documentation says.
pub assume_specification[ String::push ](s: &mut String, ch: char)
    ensures
        final(s)@ == old(s)@.push(ch),
;

} // verus!
