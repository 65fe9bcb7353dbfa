//! Decoding of a raw device buffer into a trimmed text line.
//!
//! A device read fills a byte buffer and reports how many bytes are valid;
//! only that prefix belongs to the line. The prefix is interpreted as
//! UTF-8 text and trimmed. Invalid encoding is a recoverable failure: the
//! cycle is skipped, the loop goes on.

use vstd::prelude::*;
use crate::line::trimmed;

verus! {

/// The characters a byte sequence decodes to under UTF-8, absent when the
/// bytes are not valid UTF-8.
pub uninterp spec fn utf8_chars(bytes: Seq<u8>) -> Option<Seq<char>>;

/// Relies on `std::str::from_utf8`: a byte slice converts to a string
/// slice exactly when it is valid UTF-8, and the result depends on the
/// bytes alone; an empty slice is valid UTF-8 and gives the empty string.
#[verifier::external_body]
fn utf8_prefix(bytes: &[u8]) -> (r: Option<&str>)
    ensures
        (match r {
            Some(s) => utf8_chars(bytes@) == Some(s@) && (bytes@.len() == 0 ==> s@.len() == 0),
            None => utf8_chars(bytes@) is None && bytes@.len() != 0,
        }),
{
    std::str::from_utf8(bytes).ok()
}

/// The trimmed text a valid buffer prefix decodes to.
pub open spec fn decoded_line(bytes: Seq<u8>) -> Option<Seq<char>> {
    match utf8_chars(bytes) {
        Some(cs) => Some(trimmed(cs)),
        None => None,
    }
}

/// Decode the `n`-byte valid prefix of a device buffer into a trimmed
/// line, or nothing when the prefix is not valid UTF-8.
pub fn decode_line(data: &[u8], n: usize) -> (r: Option<String>)
    requires
        n <= data@.len(),
    ensures
        (match r {
            Some(l) => Some(l@),
            None => None,
        }) == decoded_line(data@.subrange(0, n as int)),
{
    let prefix = vstd::slice::slice_subrange(data, 0, n);
    match utf8_prefix(prefix) {
        Some(s) => Some(crate::line::trim_line(s)),
        None => None,
    }
}

} // verus!
