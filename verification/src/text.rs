//! Executable helpers over std strings that vstd does not cover.

use vstd::prelude::*;

verus! {

/// Relies on `String::push`: appends the given character to the end of the
/// buffer.
#[verifier::external_body]
pub(crate) fn push_char(s: &mut String, c: char)
    ensures
        final(s)@ == old(s)@.push(c),
{
    s.push(c)
}

} // verus!
