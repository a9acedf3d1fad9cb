//! Percent-encoding of the report body for use in a URL query component.
//!
//! The encoding itself is done by the `urlencoding` crate; its result is
//! named by `query_encoding_of`, and everything built on top of it is
//! verified against that name.

use vstd::prelude::*;

verus! {

/// The percent-encoding that `urlencoding::encode` gives to a string: a
/// function of the characters alone.
pub uninterp spec fn query_encoding_of(s: Seq<char>) -> Seq<char>;

/// Holds of the characters that a percent-encoded string is made of: ASCII
/// alphanumerics, the four unreserved marks `-`, `.`, `_`, `~`, and `%`.
pub open spec fn query_safe_char(c: char) -> bool {
    ('0' <= c && c <= '9') || ('a' <= c && c <= 'z') || ('A' <= c && c <= 'Z') || c == '-' || c
        == '.' || c == '_' || c == '~' || c == '%'
}

/// Relies on `urlencoding::encode`: percent-encodes every byte of the UTF-8
/// form of `s` except ASCII alphanumerics and `-`, `.`, `_`, `~`; the result
/// depends on the characters of `s` alone.
#[verifier::external_body]
pub(crate) fn percent_encode(s: &str) -> (r: String)
    ensures
        r@ == query_encoding_of(s@),
        forall|i: int| 0 <= i < r@.len() ==> query_safe_char(r@[i]),
        s@.len() == 0 ==> r@.len() == 0,
{
    urlencoding::encode(s).into_owned()
}

/// Relies on `urlencoding::decode`: decodes every `%` followed by two hex
/// digits back to the byte they spell, so it reverses `urlencoding::encode`.
#[verifier::external_body]
pub(crate) fn percent_decode(q: &str) -> (r: Option<String>)
    ensures
        (match r {
            Some(d) => forall|s: Seq<char>| #[trigger] query_encoding_of(s) == q@ ==> d@ == s,
            None => forall|s: Seq<char>| #[trigger] query_encoding_of(s) != q@,
        }),
{
    match urlencoding::decode(q) {
        Ok(decoded) => Some(decoded.into_owned()),
        Err(_) => None,
    }
}

} // verus!
