//! Bytes as text: what a file holds and what a child process wrote.
//!
//! A file is text only if its bytes are well-formed UTF-8. The output of a
//! process is always taken, with whatever is ill-formed in it replaced.

use vstd::prelude::*;
use vstd::utf8::{decode_utf8, valid_utf8};

verus! {

/// The text that the standard library's lossy conversion makes of bytes
/// that are not well-formed UTF-8.
pub uninterp spec fn lossy_text(bytes: Seq<u8>) -> Seq<char>;

/// The text of bytes read strictly: the characters that they encode, if
/// they are well-formed UTF-8.
pub open spec fn strict_decoding(bytes: Seq<u8>) -> Option<Seq<char>> {
    if valid_utf8(bytes) {
        Some(decode_utf8(bytes))
    } else {
        None
    }
}

/// The text of bytes read leniently: the characters that they encode, if
/// they are well-formed UTF-8, and the lossy conversion otherwise.
pub open spec fn lossy_decoding(bytes: Seq<u8>) -> Seq<char> {
    if valid_utf8(bytes) {
        decode_utf8(bytes)
    } else {
        lossy_text(bytes)
    }
}

/// `String::from_utf8`, with the error dropped. Trusted: the call succeeds
/// exactly on well-formed UTF-8, and the string then holds the characters
/// that the bytes encode.
#[verifier::external_body]
pub(crate) fn from_utf8(bytes: Vec<u8>) -> (text: Option<String>)
    ensures
        match text {
            Some(t) => strict_decoding(bytes@) == Some(t@),
            None => strict_decoding(bytes@) is None,
        },
{
    String::from_utf8(bytes).ok()
}

/// `String::from_utf8_lossy`, as an owned string. Trusted: well-formed
/// UTF-8 comes out as the characters that it encodes; of other bytes only
/// that the same bytes give the same text.
#[verifier::external_body]
pub(crate) fn from_utf8_lossy(bytes: &Vec<u8>) -> (text: String)
    ensures
        text@ == lossy_decoding(bytes@),
        !valid_utf8(bytes@) ==> text@ == lossy_text(bytes@),
{
    String::from_utf8_lossy(bytes).into_owned()
}

} // verus!
