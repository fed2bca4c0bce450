//! Base64 text encoding of the binary proof fields.
//!
//! The session marker and the signature are binary; on the wire they are
//! carried as standard base64 text.  The encoding itself is done by the
//! `base64` crate and is not re-proved here: its results are named by
//! uninterpreted spec functions, and only facts its documentation plainly
//! gives are stated about them.

use vstd::prelude::*;
use crate::fields::contains_char;

verus! {

/// The standard base64 rendering of a byte sequence.
pub uninterp spec fn b64_of(bytes: Seq<u8>) -> Seq<char>;

/// What standard base64 decoding yields on a character sequence: the
/// decoded bytes, or nothing when the input is not valid base64.
pub uninterp spec fn b64_decoded(s: Seq<char>) -> Option<Seq<u8>>;

/// Relies on the `base64` crate's `STANDARD` engine `encode`: the result is
/// drawn from the standard alphabet (`A`-`Z`, `a`-`z`, `0`-`9`, `+`, `/`)
/// plus `=` padding, so it never contains the record delimiter, and
/// decoding it with the same engine gives the input bytes back.
#[verifier::external_body]
pub(crate) fn b64_encode(bytes: &[u8]) -> (r: String)
    ensures
        r@ == b64_of(bytes@),
        b64_decoded(r@) == Some(bytes@),
        !contains_char(r@, crate::fields::delim()),
{
    base64::Engine::encode(&base64::engine::general_purpose::STANDARD, bytes)
}

/// Relies on the `base64` crate's `STANDARD` engine `decode`: it either
/// yields the decoded bytes or rejects the input, deterministically in the
/// input alone.
#[verifier::external_body]
pub(crate) fn b64_decode(s: &str) -> (r: Option<Vec<u8>>)
    ensures
        r matches Some(v) ==> b64_decoded(s@) == Some(v@),
        r is None ==> b64_decoded(s@) is None,
{
    match base64::Engine::decode(&base64::engine::general_purpose::STANDARD, s) {
        Ok(v) => Some(v),
        Err(_) => None,
    }
}

} // verus!
