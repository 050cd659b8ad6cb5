use vstd::prelude::*;
use vstd::utf8::{encode_utf8, valid_utf8};

use std::string::FromUtf8Error;

verus! {

/// Appends one character to a string.
///
/// Trusted: calls `String::push`, which std documents as appending the given
/// `char` to the end of the string.
#[verifier::external_body]
pub(crate) fn push_char(s: &mut String, c: char)
    ensures
        final(s)@ == old(s)@.push(c),
{
    s.push(c)
}

#[verifier::external_type_specification]
#[verifier::external_body]
pub struct ExFromUtf8Error(FromUtf8Error);

/// Turns bytes into a string when they are UTF-8.
///
/// Trusted: calls `String::from_utf8`, which std documents as failing
/// exactly when the bytes are not valid UTF-8 and as otherwise keeping the
/// bytes unchanged as the string's contents.
#[verifier::external_body]
pub(crate) fn string_from_utf8(bytes: Vec<u8>) -> (res: Result<String, FromUtf8Error>)
    ensures
        res is Ok <==> valid_utf8(bytes@),
        res matches Ok(s) ==> encode_utf8(s@) == bytes@,
{
    String::from_utf8(bytes)
}

} // verus!
