//! Deterministic session-bound key derivation.
//!
//! A signing keypair is derived from the session-binding material and a
//! per-generator instance identifier: the two are concatenated and keyed
//! into HMAC-SHA256 over a fixed domain tag, and the 32-byte tag seeds an
//! Ed25519 keypair.  No private key is ever stored; identical inputs always
//! yield the identical keypair, so a verifier holding the public key needs
//! no separate key exchange.

use vstd::prelude::*;
use vstd::slice::slice_to_vec;
use crate::crypto::{ed25519_pub_of, ed25519_public, hmac_sha256, hmac_sha256_of};
use crate::errors::ProofError;

verus! {

/// The fixed message that the session-keyed HMAC is computed over.
pub open spec fn domain_tag() -> Seq<char> {
    "WEBPROOF_KEY"@
}

/// The 32-byte Ed25519 seed derived from binding material and instance
/// identifier.
pub open spec fn spec_seed(binding: Seq<u8>, instance: Seq<u8>) -> Seq<u8> {
    hmac_sha256_of(binding + instance, vstd::utf8::encode_utf8(domain_tag()))
}

/// The public key of the session-derived keypair.
pub open spec fn spec_public_key(binding: Seq<u8>, instance: Seq<u8>) -> Seq<u8> {
    ed25519_pub_of(spec_seed(binding, instance))
}

/// Derives the signing seed; fails exactly when the session binding is
/// empty, since a proof must never be produced for an unbound channel.
pub(crate) fn derive_seed(session_binding: &[u8], instance_id: &[u8]) -> (r: Result<
    Vec<u8>,
    ProofError,
>)
    ensures
        (session_binding@.len() == 0) <==> r == Err::<Vec<u8>, ProofError>(
            ProofError::KeyDerivation,
        ),
        session_binding@.len() > 0 ==> (r matches Ok(v) && v@ == spec_seed(
            session_binding@,
            instance_id@,
        ) && v@.len() == 32),
{
    if session_binding.len() == 0 {
        return Err(ProofError::KeyDerivation);
    }
    let mut input = slice_to_vec(session_binding);
    let mut inst = slice_to_vec(instance_id);
    input.append(&mut inst);
    let tag: &[u8] = "WEBPROOF_KEY".as_bytes();
    let seed = hmac_sha256(input.as_slice(), tag);
    Ok(seed)
}

/// Derives the public key of the session-bound keypair, for out-of-band
/// distribution to verifiers.  Fails exactly when the binding is empty.
pub fn derive_public_key(session_binding: &[u8], instance_id: &[u8]) -> (r: Result<
    Vec<u8>,
    ProofError,
>)
    ensures
        (session_binding@.len() == 0) <==> r == Err::<Vec<u8>, ProofError>(
            ProofError::KeyDerivation,
        ),
        session_binding@.len() > 0 ==> (r matches Ok(k) && k@ == spec_public_key(
            session_binding@,
            instance_id@,
        ) && k@.len() == 32),
{
    let seed = match derive_seed(session_binding, instance_id) {
        Ok(s) => s,
        Err(e) => {
            return Err(e);
        },
    };
    Ok(ed25519_public(seed.as_slice()))
}

/// Determinism of derivation: two derivations from identical session
/// binding and instance identifier yield bit-identical seeds and public
/// keys — there is no hidden randomness in the derivation itself.
pub proof fn lemma_derivation_deterministic(b1: Seq<u8>, i1: Seq<u8>, b2: Seq<u8>, i2: Seq<u8>)
    requires
        b1 == b2,
        i1 == i2,
    ensures
        spec_seed(b1, i1) == spec_seed(b2, i2),
        spec_public_key(b1, i1) == spec_public_key(b2, i2),
{
}

} // verus!
