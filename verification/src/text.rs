//! Passing between text and the bytes that encode it.
//!
//! The conversions are std's. What is claimed of them here is taken on
//! trust; everything else in this module is proved from it.

use vstd::prelude::*;
use vstd::utf8::{decode_utf8, encode_utf8, valid_utf8};
use core::str::Utf8Error;
use std::string::FromUtf8Error;

verus! {

/// `core::str::Utf8Error`, as an opaque value.
#[verifier::external_type_specification]
#[verifier::external_body]
pub struct ExUtf8Error(core::str::Utf8Error);

/// `std::string::FromUtf8Error`, as an opaque value.
#[verifier::external_type_specification]
#[verifier::external_body]
pub struct ExFromUtf8Error(std::string::FromUtf8Error);

/// `String::into_bytes` gives the bytes that the string holds, which are
/// the UTF-8 encoding of its characters.
pub assume_specification[ String::into_bytes ](text: String) -> (bytes: Vec<u8>)
    ensures
        bytes@ == encode_utf8(text@),
;

/// `String::from_utf8` succeeds exactly on well-formed UTF-8, and the
/// string it then returns holds the very bytes it was given.
pub assume_specification[ String::from_utf8 ](bytes: Vec<u8>) -> (r: Result<String, FromUtf8Error>)
    ensures
        r is Ok <==> valid_utf8(bytes@),
        r matches Ok(text) ==> encode_utf8(text@) == bytes@,
;

/// `core::str::from_utf8` succeeds exactly on well-formed UTF-8, and the
/// string slice it then returns covers the very bytes it was given.
pub assume_specification[ core::str::from_utf8 ](bytes: &[u8]) -> (r: Result<&str, Utf8Error>)
    ensures
        r is Ok <==> valid_utf8(bytes@),
        r matches Ok(text) ==> encode_utf8(text@) == bytes@,
;

/// Well-formed bytes encode `text` exactly when they decode to it.
pub proof fn lemma_encodes_iff_decodes(bytes: Seq<u8>, text: Seq<char>)
    requires
        valid_utf8(bytes),
    ensures
        bytes == encode_utf8(text) <==> decode_utf8(bytes) == text,
{
    vstd::utf8::encode_utf8_decode_utf8(text);
    vstd::utf8::decode_utf8_encode_utf8(bytes);
}

/// Reads well-formed bytes as text, in place.
pub(crate) fn str_of(bytes: &[u8]) -> (text: &str)
    requires
        valid_utf8(bytes@),
    ensures
        text@ == decode_utf8(bytes@),
{
    match core::str::from_utf8(bytes) {
        Ok(text) => {
            proof {
                lemma_encodes_iff_decodes(bytes@, text@);
            }
            text
        },
        Err(_) => vstd::pervasive::unreached(),
    }
}

/// Turns a buffer of well-formed bytes into a string that holds the same
/// buffer.
pub(crate) fn string_of(bytes: Vec<u8>) -> (text: String)
    requires
        valid_utf8(bytes@),
    ensures
        text@ == decode_utf8(bytes@),
{
    let ghost given = bytes@;
    match String::from_utf8(bytes) {
        Ok(text) => {
            proof {
                lemma_encodes_iff_decodes(given, text@);
            }
            text
        },
        Err(_) => vstd::pervasive::unreached(),
    }
}

} // verus!
