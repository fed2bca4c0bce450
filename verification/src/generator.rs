//! Proof generation: derive the session keypair, assemble the canonical
//! message, sign it and frame the record.
//!
//! The deterministic core is `build_proof`, which carries the record's
//! round-trip guarantee: a record it returns is well formed, its signature
//! verifies under the session's derived public key, and verification
//! accepts it exactly as long as its age stays within the freshness window.
//! `WebProofGenerator` wraps that core behind the two injected
//! capabilities: a session-binding source and a content source.

use vstd::prelude::*;
use vstd::string::{StrSliceExecFns, StringExecFns};
use crate::crypto::{ed25519_sig_of, ed25519_sign, fresh_instance_id, now_unix};
use crate::digits::{dec_digits_of, lemma_dec_digits_of, u64_to_dec};
use crate::encoding::{b64_encode, b64_of};
use crate::errors::ProofError;
use crate::fields::{contains_char, contains_delim, delim, lemma_split_four};
use crate::keys::{derive_seed, derive_public_key, spec_public_key, spec_seed};
use crate::message::{build_message, spec_message};
use crate::verification::{spec_accepts, spec_fields, spec_sig_ok, spec_timestamp};

verus! {

/// A live secure channel, able to say what session material it negotiated.
///
/// Implementations return `None` when no secure channel was established;
/// no proof can be generated then.
pub trait TlsConnection {
    fn negotiated_cipher_suite(&self) -> Option<String>;
}

/// The injected content-extraction capability: produces the content
/// extract a proof attests, typically by using the active session's
/// transport.
pub trait WebContentExtractor<C: TlsConnection> {
    fn extract_content(&self, tls_connection: &C) -> Result<String, ProofError>;
}

/// The canonical message that gets signed: base64 session marker,
/// decimal timestamp and content, delimiter-joined.
pub open spec fn spec_canonical_message(binding: Seq<u8>, content: Seq<char>, ts: u64) -> Seq<
    char,
> {
    spec_message(b64_of(binding), dec_digits_of(ts as nat), content)
}

/// The full proof record: canonical message plus the base64 of its
/// signature under the session-derived key.
pub open spec fn spec_proof(
    binding: Seq<u8>,
    instance: Seq<u8>,
    content: Seq<char>,
    ts: u64,
) -> Seq<char> {
    spec_canonical_message(binding, content, ts) + seq![delim()] + b64_of(
        ed25519_sig_of(spec_seed(binding, instance), spec_canonical_message(binding, content, ts)),
    )
}

/// Builds and signs a proof record from explicit session material, an
/// instance identifier, the content extract and the generation instant.
///
/// Fails with `KeyDerivation` exactly when the binding is empty, and with
/// `ContentExtraction` exactly when the content contains the record
/// delimiter and so cannot be framed.  A returned record verifies under
/// the session's derived public key precisely while its age is within the
/// freshness window.
pub fn build_proof(
    session_binding: &[u8],
    instance_id: &[u8],
    content: &str,
    timestamp: u64,
) -> (r: Result<String, ProofError>)
    ensures
        (session_binding@.len() == 0) <==> r == Err::<String, ProofError>(
            ProofError::KeyDerivation,
        ),
        (session_binding@.len() > 0 && contains_char(content@, delim())) <==> r == Err::<
            String,
            ProofError,
        >(ProofError::ContentExtraction),
        (session_binding@.len() > 0 && !contains_char(content@, delim())) ==> (r matches Ok(p)
            && p@ == spec_proof(session_binding@, instance_id@, content@, timestamp)),
        r matches Ok(p) ==> forall|ma: u64, t: u64|
            #[trigger] spec_accepts(
                p@,
                spec_public_key(session_binding@, instance_id@),
                ma,
                t,
            ) <==> t - timestamp <= ma,
{
    let seed = match derive_seed(session_binding, instance_id) {
        Ok(s) => s,
        Err(e) => {
            return Err(e);
        },
    };
    if contains_delim(content) {
        return Err(ProofError::ContentExtraction);
    }
    let marker = b64_encode(session_binding);
    let ts_str = u64_to_dec(timestamp);
    proof {
        lemma_dec_digits_of(timestamp as nat);
    }
    let msg = build_message(marker.as_str(), ts_str.as_str(), content);
    let sig = ed25519_sign(seed.as_slice(), msg.as_str());
    let sig_b64 = b64_encode(sig.as_slice());
    let mut record = msg;
    record.append("|");
    record.append(sig_b64.as_str());
    proof {
        reveal_strlit("|");
        assert("|"@ =~= seq![delim()]);
        let binding = session_binding@;
        let instance = instance_id@;
        let cm = spec_canonical_message(binding, content@, timestamp);
        assert(record@ =~= spec_proof(binding, instance, content@, timestamp));
        assert(!contains_char(ts_str@, delim())) by {
            if contains_char(ts_str@, delim()) {
                let i = choose|i: int|
                    0 <= i < ts_str@.len() && ts_str@[i] == delim();
            }
        }
        lemma_split_four(marker@, ts_str@, content@, sig_b64@);
        assert(marker@ + seq![delim()] + ts_str@ + seq![delim()] + content@ + seq![delim()]
            + sig_b64@ =~= record@);
        let fs = spec_fields(record@);
        assert(fs == seq![marker@, ts_str@, content@, sig_b64@]);
        assert(fs.len() == 4);
        assert(fs[0] == marker@ && fs[1] == ts_str@ && fs[2] == content@ && fs[3] == sig_b64@);
        assert(spec_timestamp(record@) == timestamp);
        assert(spec_message(fs[0], fs[1], fs[2]) =~= cm);
        assert(spec_sig_ok(record@, spec_public_key(binding, instance)));
        assert(!crate::verification::spec_malformed(record@));
        assert forall|ma: u64, t: u64|
            #[trigger] spec_accepts(
                record@,
                spec_public_key(binding, instance),
                ma,
                t,
            ) <==> t - timestamp <= ma by {
            assert(crate::verification::spec_expired(record@, ma, t) <==> t - timestamp > ma);
        }
    }
    Ok(record)
}

/// Generates proofs bound to one secure session: holds the session-binding
/// material extracted at construction, a fixed instance identifier, and
/// the injected content source.
pub struct WebProofGenerator<C: TlsConnection, E: WebContentExtractor<C>> {
    tls_connection: C,
    content_extractor: E,
    session_binding: Vec<u8>,
    instance_id: Vec<u8>,
}

impl<C: TlsConnection, E: WebContentExtractor<C>> WebProofGenerator<C, E> {
    /// Well-formedness: the session binding is non-empty and the instance
    /// identifier has its fixed size.  `new` establishes this and every
    /// method preserves it.
    pub closed spec fn wf(&self) -> bool {
        self.session_binding@.len() > 0 && self.instance_id@.len() == 16
    }

    /// The session-binding bytes this generator is scoped to.
    pub closed spec fn spec_binding(&self) -> Seq<u8> {
        self.session_binding@
    }

    /// The fixed per-generator instance identifier.
    pub closed spec fn spec_instance(&self) -> Seq<u8> {
        self.instance_id@
    }

    /// Creates a generator for the session of `tls_connection`.
    ///
    /// Refuses with `KeyDerivation` when the connection negotiated no
    /// cipher suite (or an empty one): a proof must never be produced for
    /// an unauthenticated or unbound channel.
    pub fn new(tls_connection: C, content_extractor: E) -> (r: Result<Self, ProofError>)
        ensures
            r matches Ok(g) ==> g.wf(),
            r matches Err(e) ==> e == ProofError::KeyDerivation,
    {
        let suite = match tls_connection.negotiated_cipher_suite() {
            Some(s) => s,
            None => {
                return Err(ProofError::KeyDerivation);
            },
        };
        let session_binding = suite.as_str().as_bytes_vec();
        if session_binding.len() == 0 {
            return Err(ProofError::KeyDerivation);
        }
        let instance_id = fresh_instance_id();
        Ok(WebProofGenerator { tls_connection, content_extractor, session_binding, instance_id })
    }

    /// Obtains a content extract from the injected source, captures the
    /// current time, and builds a signed proof record.
    ///
    /// Any failure of the content source, and content that cannot be
    /// framed, surfaces as `ContentExtraction`; no partial proof is ever
    /// returned.
    pub fn generate_webproof(&self) -> (r: Result<String, ProofError>)
        requires
            self.wf(),
        ensures
            r matches Ok(p) ==> exists|c: Seq<char>, t: u64|
                {
                    &&& !contains_char(c, delim())
                    &&& p@ == #[trigger] spec_proof(
                        self.spec_binding(),
                        self.spec_instance(),
                        c,
                        t,
                    )
                    &&& forall|ma: u64, t2: u64|
                        #[trigger] spec_accepts(
                            p@,
                            spec_public_key(self.spec_binding(), self.spec_instance()),
                            ma,
                            t2,
                        ) <==> t2 - t <= ma
                },
            r matches Err(e) ==> e == ProofError::ContentExtraction,
    {
        let content = match self.content_extractor.extract_content(&self.tls_connection) {
            Ok(c) => c,
            Err(_) => {
                return Err(ProofError::ContentExtraction);
            },
        };
        let now = now_unix();
        let now_u: u64 = if now < 0 {
            0
        } else {
            now as u64
        };
        let r = build_proof(
            self.session_binding.as_slice(),
            self.instance_id.as_slice(),
            content.as_str(),
            now_u,
        );
        proof {
            if !contains_char(content@, delim()) {
                assert(r matches Ok(p) ==> p@ == spec_proof(
                    self.spec_binding(),
                    self.spec_instance(),
                    content@,
                    now_u,
                ));
            }
        }
        r
    }

    /// The public key of this generator's session-derived keypair, for
    /// out-of-band distribution to verifiers.
    pub fn public_key(&self) -> (r: Result<Vec<u8>, ProofError>)
        requires
            self.wf(),
        ensures
            r matches Ok(k) && k@ == spec_public_key(self.spec_binding(), self.spec_instance())
                && k@.len() == 32,
    {
        derive_public_key(self.session_binding.as_slice(), self.instance_id.as_slice())
    }
}

} // verus!
