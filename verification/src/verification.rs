//! Proof verification: decode, freshness check, signature check.
//!
//! Only structurally malformed records are hard errors; a well-formed proof
//! always gets an unambiguous boolean verdict.  Staleness is a strict
//! inequality on the proof's age against the freshness window, and the
//! signature is checked over the canonical message rebuilt byte for byte
//! from the decoded fields.

use vstd::prelude::*;
use crate::crypto::{ed25519_verifies, ed25519_verify, now_unix};
use crate::digits::{dec_val, is_dec_string, parse_u64_dec};
use crate::encoding::{b64_decode, b64_decoded};
use crate::errors::ProofError;
use crate::fields::{delim, split_char, split_delim};
use crate::message::{build_message, spec_message};

verus! {

/// The delimited fields of a proof record.
pub open spec fn spec_fields(p: Seq<char>) -> Seq<Seq<char>> {
    split_char(p, delim())
}

/// A record is malformed when it does not have exactly four fields, a
/// binary field is not valid base64, or the timestamp field is not a
/// decimal number that fits in 64 bits.
pub open spec fn spec_malformed(p: Seq<char>) -> bool {
    let fs = spec_fields(p);
    ||| fs.len() != 4
    ||| b64_decoded(fs[0]) is None
    ||| !is_dec_string(fs[1])
    ||| dec_val(fs[1]) > u64::MAX
    ||| b64_decoded(fs[3]) is None
}

/// The generation instant a well-formed proof claims.
pub open spec fn spec_timestamp(p: Seq<char>) -> int {
    dec_val(spec_fields(p)[1])
}

/// A proof is expired at `now` when its age strictly exceeds the window.
pub open spec fn spec_expired(p: Seq<char>, max_age: u64, now: u64) -> bool {
    now - spec_timestamp(p) > max_age
}

/// Whether the signature field verifies, under `pk`, over the canonical
/// message rebuilt from the first three fields.
pub open spec fn spec_sig_ok(p: Seq<char>, pk: Seq<u8>) -> bool {
    let fs = spec_fields(p);
    ed25519_verifies(pk, spec_message(fs[0], fs[1], fs[2]), b64_decoded(fs[3]).unwrap())
}

/// The verdict owed for a well-formed proof: fresh and correctly signed.
pub open spec fn spec_accepts(p: Seq<char>, pk: Seq<u8>, max_age: u64, now: u64) -> bool {
    &&& !spec_malformed(p)
    &&& !spec_expired(p, max_age, now)
    &&& spec_sig_ok(p, pk)
}

/// A decoded proof record.
///
/// Each binary field is kept both as its wire text — verification must
/// rebuild the canonical message byte for byte, so reformatting (say, of a
/// timestamp with leading zeros) is not an option — and in decoded form.
pub struct DecodedProof {
    /// The base64 session-marker field, as written on the wire.
    pub marker_text: String,
    /// The decoded session marker.
    pub session_marker: Vec<u8>,
    /// The decimal timestamp field, as written on the wire.
    pub timestamp_text: String,
    /// The parsed generation instant, seconds since the Unix epoch.
    pub timestamp: u64,
    /// The content extract, carried verbatim.
    pub content: String,
    /// The decoded signature.
    pub signature: Vec<u8>,
}

/// What it means for a decoded record to be the decoding of `p`.
pub open spec fn decoded_matches(d: DecodedProof, p: Seq<char>) -> bool {
    let fs = spec_fields(p);
    &&& d.marker_text@ == fs[0]
    &&& Some(d.session_marker@) == b64_decoded(fs[0])
    &&& d.timestamp_text@ == fs[1]
    &&& d.timestamp == dec_val(fs[1])
    &&& d.content@ == fs[2]
    &&& Some(d.signature@) == b64_decoded(fs[3])
}

/// Decodes a proof record, rejecting malformed ones.
///
/// Decoding checks structure only — field count, base64 and timestamp
/// well-formedness; freshness and the signature are the verifier's job.
pub fn decode_proof(proof_text: &str) -> (r: Result<DecodedProof, ProofError>)
    ensures
        r is Err <==> spec_malformed(proof_text@),
        r is Err ==> r == Err::<DecodedProof, ProofError>(ProofError::MalformedProof),
        r matches Ok(d) ==> decoded_matches(d, proof_text@),
{
    let fields = split_delim(proof_text);
    if fields.len() != 4 {
        return Err(ProofError::MalformedProof);
    }
    let marker_text = fields[0].clone();
    let session_marker = match b64_decode(marker_text.as_str()) {
        Some(v) => v,
        None => {
            return Err(ProofError::MalformedProof);
        },
    };
    let timestamp_text = fields[1].clone();
    let timestamp = match parse_u64_dec(timestamp_text.as_str()) {
        Some(t) => t,
        None => {
            return Err(ProofError::MalformedProof);
        },
    };
    let content = fields[2].clone();
    let signature = match b64_decode(fields[3].as_str()) {
        Some(v) => v,
        None => {
            return Err(ProofError::MalformedProof);
        },
    };
    Ok(DecodedProof { marker_text, session_marker, timestamp_text, timestamp, content, signature })
}

/// Verifies a proof record against a public key at the instant `now`.
///
/// Returns `Err(MalformedProof)` exactly for structurally malformed
/// records; every well-formed record gets `Ok` with the exact verdict.
pub fn verify_webproof_at(proof_text: &str, public_key: &[u8], max_age: u64, now: u64) -> (r:
    Result<bool, ProofError>)
    ensures
        r is Err <==> spec_malformed(proof_text@),
        r is Err ==> r == Err::<bool, ProofError>(ProofError::MalformedProof),
        !spec_malformed(proof_text@) ==> r == Ok::<bool, ProofError>(
            !spec_expired(proof_text@, max_age, now) && spec_sig_ok(proof_text@, public_key@),
        ),
{
    let d = match decode_proof(proof_text) {
        Ok(d) => d,
        Err(e) => {
            return Err(e);
        },
    };
    let fresh = if now >= d.timestamp {
        now - d.timestamp <= max_age
    } else {
        true
    };
    let msg = build_message(d.marker_text.as_str(), d.timestamp_text.as_str(), d.content.as_str());
    let sig_ok = ed25519_verify(public_key, msg.as_str(), d.signature.as_slice());
    Ok(fresh && sig_ok)
}

/// Verifies a proof record against a public key at the current time.
pub fn verify_webproof(proof_text: &str, public_key: &[u8], max_age: u64) -> (r: Result<
    bool,
    ProofError,
>)
    ensures
        r is Err <==> spec_malformed(proof_text@),
        r is Err ==> r == Err::<bool, ProofError>(ProofError::MalformedProof),
        !spec_malformed(proof_text@) ==> exists|t: u64|
            r == Ok::<bool, ProofError>(
                !spec_expired(proof_text@, max_age, t) && spec_sig_ok(proof_text@, public_key@),
            ),
{
    let now = now_unix();
    let now_u: u64 = if now < 0 {
        0
    } else {
        now as u64
    };
    let r = verify_webproof_at(proof_text, public_key, max_age, now_u);
    proof {
        if !spec_malformed(proof_text@) {
            assert(r == Ok::<bool, ProofError>(
                !spec_expired(proof_text@, max_age, now_u) && spec_sig_ok(
                    proof_text@,
                    public_key@,
                ),
            ));
        }
    }
    r
}

} // verus!
