//! Trusted contracts for the two `String` growth operations of std that
//! vstd leaves unspecified. Everything the library builds, it builds
//! through these.

use vstd::prelude::*;

verus! {

/// Relies on `String::push`: appends exactly the given character.
pub assume_specification[ String::push ](s: &mut String, ch: char)
    ensures
        final(s)@ == old(s)@.push(ch),
;

/// Relies on `String::push_str`: appends exactly the given string slice.
pub assume_specification[ String::push_str ](s: &mut String, other: &str)
    ensures
        final(s)@ == old(s)@ + other@,
;

} // verus!
