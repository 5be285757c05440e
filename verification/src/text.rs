//! Decoding file content as UTF-8 text.

use vstd::prelude::*;
use vstd::utf8::decode_utf8;
use vstd::utf8::valid_utf8;
use crate::error::EntryError;

verus! {

/// `core::str::Utf8Error`: why bytes are not UTF-8. Nothing is read from it.
#[verifier::external_type_specification]
#[verifier::external_body]
pub struct ExUtf8Error(core::str::Utf8Error);

/// `core::str::from_utf8` succeeds exactly on well-formed UTF-8, and the
/// string slice it gives holds the characters that the bytes encode.
pub assume_specification<'a>[ core::str::from_utf8 ](bytes: &'a [u8]) -> (text: Result<
    &'a str,
    core::str::Utf8Error,
>)
    ensures
        text is Ok <==> valid_utf8(bytes@),
        text matches Ok(s) ==> s@ == decode_utf8(bytes@),
;

/// The text that `bytes` encode, or `InvalidData` where they are not UTF-8.
pub open spec fn decoded(bytes: Seq<u8>) -> Result<Seq<char>, EntryError> {
    if valid_utf8(bytes) {
        Ok(decode_utf8(bytes))
    } else {
        Err(EntryError::InvalidData)
    }
}

/// A result that carries a string, seen as one that carries its text.
pub open spec fn text_view(r: Result<String, EntryError>) -> Result<Seq<char>, EntryError> {
    match r {
        Ok(s) => Ok(s@),
        Err(e) => Err(e),
    }
}

/// Decodes `bytes` as UTF-8.
pub fn decode(bytes: &[u8]) -> (text: Result<String, EntryError>)
    ensures
        text_view(text) == decoded(bytes@),
{
    match core::str::from_utf8(bytes) {
        Ok(s) => Ok(s.to_owned()),
        Err(_) => Err(EntryError::InvalidData),
    }
}

} // verus!
