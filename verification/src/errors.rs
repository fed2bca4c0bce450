//! Error kinds shared by proof generation and verification.

use vstd::prelude::*;

verus! {

/// What went wrong while generating or verifying a proof.
///
/// Generation-side failures are always hard errors: no partial proof is ever
/// returned.  On the verification side only structurally malformed records
/// are hard errors; staleness and signature mismatch are reported as a
/// boolean verdict instead.
#[derive(Clone, Copy, Debug, PartialEq, Eq, Structural)]
pub enum ProofError {
    /// The session binding is absent or empty, or key generation failed:
    /// no proof may be produced for an unbound channel.
    KeyDerivation,
    /// The injected content source failed, or handed back content that
    /// cannot be framed (it contains the record delimiter).
    ContentExtraction,
    /// A proof record had the wrong number of delimited fields, or a binary
    /// field that does not decode.
    MalformedProof,
}

impl ProofError {
    /// A human-readable description of the error.
    pub fn describe(&self) -> (r: &'static str)
        ensures
            *self is KeyDerivation ==> r@ == "no session binding material negotiated"@,
            *self is ContentExtraction ==> r@ == "content source failed"@,
            *self is MalformedProof ==> r@ == "invalid webproof format"@,
    {
        match self {
            ProofError::KeyDerivation => "no session binding material negotiated",
            ProofError::ContentExtraction => "content source failed",
            ProofError::MalformedProof => "invalid webproof format",
        }
    }
}

} // verus!
