//! Contracts for the few string operations of std that vstd leaves
//! unspecified: appending one character, and decoding UTF-8 bytes.

use vstd::prelude::*;

verus! {

/// Relies on String::push: appends the given character to the end of the
/// string.
pub assume_specification[ String::push ](s: &mut String, ch: char)
    ensures
        final(s)@ == old(s)@.push(ch),
;

/// Relies on String::from_utf8: returns a string exactly when the bytes are
/// valid UTF-8, and that string holds their decoding.
#[verifier::external_body]
pub fn bytes_to_utf8_string(bytes: &[u8]) -> (r: Option<String>)
    ensures
        r is Some <==> vstd::utf8::valid_utf8(bytes@),
        r matches Some(s) ==> s@ == vstd::utf8::decode_utf8(bytes@),
{
    core::str::from_utf8(bytes).ok().map(|s| s.to_owned())
}

} // verus!
