//! Text decoding and matching, through the standard library.
use vstd::prelude::*;
use vstd::utf8::{decode_utf8, valid_utf8};

verus! {

/// What the standard library's lossy decoding makes of bytes that are not
/// valid UTF-8 (each invalid sequence becomes a replacement character).
pub uninterp spec fn lossy_utf8(b: Seq<u8>) -> Seq<char>;

/// The text that lossy decoding gives: the decoded text where the bytes are
/// valid UTF-8.
pub open spec fn lossy_text(b: Seq<u8>) -> Seq<char> {
    if valid_utf8(b) {
        decode_utf8(b)
    } else {
        lossy_utf8(b)
    }
}

/// Relies on `String::from_utf8_lossy`: valid UTF-8 decodes to its text,
/// and the result depends on the bytes alone.
#[verifier::external_body]
pub(crate) fn decode_lossy(b: &[u8]) -> (r: String)
    ensures
        valid_utf8(b@) ==> r@ == decode_utf8(b@),
        !valid_utf8(b@) ==> r@ == lossy_utf8(b@),
{
    String::from_utf8_lossy(b).into_owned()
}

/// Relies on `std::str::from_utf8`: it succeeds exactly on valid UTF-8, with
/// the text that the bytes encode.
#[verifier::external_body]
pub(crate) fn decode_strict(b: &[u8]) -> (r: Option<String>)
    ensures
        r.is_some() == valid_utf8(b@),
        r.is_some() ==> r.unwrap()@ == decode_utf8(b@),
{
    std::str::from_utf8(b).ok().map(|s| s.to_string())
}

/// Relies on `str::strip_prefix`: the rest of `s` where it starts with
/// `prefix`, and nothing otherwise.
#[verifier::external_body]
pub(crate) fn strip_prefix(s: &str, prefix: &str) -> (r: Option<String>)
    ensures
        r.is_some() == (prefix@.len() <= s@.len() && s@.take(prefix@.len() as int) == prefix@),
        r.is_some() ==> r.unwrap()@ == s@.skip(prefix@.len() as int),
{
    s.strip_prefix(prefix).map(|rest| rest.to_string())
}

} // verus!
