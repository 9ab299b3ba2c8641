//! What the standard library's string operations do, where the verifier's
//! own library is silent.

use vstd::prelude::*;

verus! {

/// Trusted: `String::push` appends the given character to the end of the
/// string, as its documentation says.
pub assume_specification[ String::push ](s: &mut String, c: char)
    ensures
        final(s)@ == old(s)@.push(c),
;

} // verus!
