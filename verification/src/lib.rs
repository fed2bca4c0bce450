//! Portable web proofs: signed attestations that a piece of content was
//! observed during a specific network session.
//!
//! A proof binds a content extract, a timestamp and an opaque session marker
//! to an Ed25519 signature whose keypair is derived deterministically from
//! the session-binding material, so no private key is ever stored.  The wire
//! format is a single line of four `|`-separated fields:
//! `base64(marker)|timestamp|content|base64(signature)`.
//!
//! Verification reconstructs the signed message byte for byte from the
//! decoded fields, checks the proof's age against a freshness window, and
//! checks the signature against a public key supplied out of band.

pub mod crypto;
pub mod digits;
pub mod encoding;
pub mod errors;
pub mod fields;
pub mod generator;
pub mod keys;
pub mod message;
pub mod verification;

pub use errors::ProofError;
pub use generator::{build_proof, TlsConnection, WebContentExtractor, WebProofGenerator};
pub use keys::derive_public_key;
pub use verification::{decode_proof, verify_webproof, verify_webproof_at, DecodedProof};
