//! Trusted wrappers around the cryptographic primitives of `ring`, and the
//! two environment inputs (a fresh instance identifier, the clock).
//!
//! Every result that is a pure function of the arguments is given a name by
//! an uninterpreted spec function; the wrappers state only what `ring`'s
//! source and documentation plainly show.  Randomness and time get no name:
//! nothing relates two calls of those.

use vstd::prelude::*;

verus! {

/// The HMAC-SHA256 tag over `data` keyed with `key`.
pub uninterp spec fn hmac_sha256_of(key: Seq<u8>, data: Seq<u8>) -> Seq<u8>;

/// The Ed25519 public key belonging to a 32-byte seed.
pub uninterp spec fn ed25519_pub_of(seed: Seq<u8>) -> Seq<u8>;

/// The (deterministic) Ed25519 signature of `msg` under the keypair grown
/// from `seed`.
pub uninterp spec fn ed25519_sig_of(seed: Seq<u8>, msg: Seq<char>) -> Seq<u8>;

/// Whether Ed25519 signature verification accepts `sig` over `msg` under
/// the public key bytes `pk` (false as well when `pk` or `sig` do not even
/// parse as key or signature).
pub uninterp spec fn ed25519_verifies(pk: Seq<u8>, msg: Seq<char>, sig: Seq<u8>) -> bool;

/// Relies on `ring::hmac::sign` with `HMAC_SHA256`: a 32-byte tag that is a
/// function of key and data alone.
#[verifier::external_body]
pub(crate) fn hmac_sha256(key: &[u8], data: &[u8]) -> (r: Vec<u8>)
    ensures
        r@ == hmac_sha256_of(key@, data@),
        r@.len() == 32,
{
    let tag = ring::hmac::sign(&ring::hmac::Key::new(ring::hmac::HMAC_SHA256, key), data);
    tag.as_ref().to_vec()
}

/// Relies on `ring::signature::Ed25519KeyPair::from_seed_unchecked` (which
/// accepts exactly the 32-byte seeds and computes the keypair from the seed
/// alone) and `KeyPair::public_key`: a 32-byte public key.
#[verifier::external_body]
pub(crate) fn ed25519_public(seed: &[u8]) -> (r: Vec<u8>)
    requires
        seed@.len() == 32,
    ensures
        r@ == ed25519_pub_of(seed@),
        r@.len() == 32,
{
    let key_pair = ring::signature::Ed25519KeyPair::from_seed_unchecked(seed).unwrap();
    ring::signature::KeyPair::public_key(&key_pair).as_ref().to_vec()
}

/// Relies on `Ed25519KeyPair::from_seed_unchecked` and `Ed25519KeyPair::sign`:
/// Ed25519 signing is deterministic in seed and message, yields 64 bytes,
/// and the signature verifies under the keypair's own public key.
#[verifier::external_body]
pub(crate) fn ed25519_sign(seed: &[u8], msg: &str) -> (r: Vec<u8>)
    requires
        seed@.len() == 32,
    ensures
        r@ == ed25519_sig_of(seed@, msg@),
        r@.len() == 64,
        ed25519_verifies(ed25519_pub_of(seed@), msg@, r@),
{
    let key_pair = ring::signature::Ed25519KeyPair::from_seed_unchecked(seed).unwrap();
    key_pair.sign(msg.as_bytes()).as_ref().to_vec()
}

/// Relies on `ring::signature::UnparsedPublicKey::verify` with `ED25519`:
/// acceptance is a function of public key, message and signature alone.
#[verifier::external_body]
pub(crate) fn ed25519_verify(pk: &[u8], msg: &str, sig: &[u8]) -> (r: bool)
    ensures
        r == ed25519_verifies(pk@, msg@, sig@),
{
    ring::signature::UnparsedPublicKey::new(&ring::signature::ED25519, pk)
        .verify(msg.as_bytes(), sig)
        .is_ok()
}

/// Relies on `uuid::Uuid::new_v4`: a fresh random identifier of exactly 16
/// bytes.  Nothing is assumed about its value.
#[verifier::external_body]
pub(crate) fn fresh_instance_id() -> (r: Vec<u8>)
    ensures
        r@.len() == 16,
{
    uuid::Uuid::new_v4().as_bytes().to_vec()
}

/// Relies on `chrono::Utc::now`: the current time in seconds since the Unix
/// epoch.  Nothing is assumed about the value.
#[verifier::external_body]
pub(crate) fn now_unix() -> i64 {
    chrono::Utc::now().timestamp()
}

} // verus!
