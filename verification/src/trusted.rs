//! Contracts for the outside functions the library calls.

use vstd::prelude::*;
use vstd::utf8::{decode_utf8, encode_utf8, valid_utf8};

verus! {

/// Relies on memchr::memchr: returns the index of the first occurrence of
/// `needle` in `haystack`, or `None` if the byte does not occur.
pub assume_specification[ memchr::memchr ](needle: u8, haystack: &[u8]) -> (r: Option<
    usize,
>)
    ensures
        match r {
            Some(i) => 0 <= i < haystack@.len() && haystack@[i as int] == needle && (forall|j: int|
                0 <= j < i ==> haystack@[j] != needle),
            None => forall|j: int| 0 <= j < haystack@.len() ==> haystack@[j] != needle,
        },
;

/// Relies on core::str::from_utf8: it succeeds exactly on valid UTF-8, and on
/// failure `Utf8Error::valid_up_to` is the largest index up to which the
/// input is valid UTF-8.
#[verifier::external_body]
pub(crate) fn utf8_check(v: &[u8]) -> (r: Result<(), usize>)
    ensures
        r is Ok <==> valid_utf8(v@),
        match r {
            Ok(()) => true,
            Err(i) => {
                &&& 0 <= i <= v@.len()
                &&& valid_utf8(v@.subrange(0, i as int))
                &&& forall|j: int| i < j <= v@.len() ==> !valid_utf8(v@.subrange(0, j))
            },
        },
{
    match core::str::from_utf8(v) {
        Ok(_) => Ok(()),
        Err(e) => Err(e.valid_up_to()),
    }
}

/// Relies on alloc's String::from_utf8: bytes that are valid UTF-8 become the
/// string whose encoding is exactly those bytes.
#[verifier::external_body]
pub(crate) fn utf8_to_string(v: &Vec<u8>) -> (r: String)
    requires
        valid_utf8(v@),
    ensures
        encode_utf8(r@) == v@,
        r@ == decode_utf8(v@),
{
    String::from_utf8(v.clone()).unwrap_or_default()
}

} // verus!
