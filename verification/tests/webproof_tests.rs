//! End-to-end tests of proof generation and verification through the
//! public API, with mock session and content sources.

use webproof::{
    build_proof, derive_public_key, verify_webproof, verify_webproof_at, ProofError,
    TlsConnection, WebContentExtractor, WebProofGenerator,
};

struct MockTlsConnection {
    cipher_suite: Option<String>,
}

impl TlsConnection for MockTlsConnection {
    fn negotiated_cipher_suite(&self) -> Option<String> {
        self.cipher_suite.clone()
    }
}

struct MockContentExtractor;

impl WebContentExtractor<MockTlsConnection> for MockContentExtractor {
    fn extract_content(
        &self,
        _tls_connection: &MockTlsConnection,
    ) -> Result<String, ProofError> {
        Ok("Mock web content".to_string())
    }
}

fn setup_mock_tls_connection() -> MockTlsConnection {
    MockTlsConnection {
        cipher_suite: Some("TLS_AES_256_GCM_SHA384".to_string()),
    }
}

const INSTANCE: &[u8] = b"instance-0123456";

fn now_ts() -> u64 {
    let now = chrono::Utc::now().timestamp();
    if now < 0 {
        0
    } else {
        now as u64
    }
}

#[test]
fn test_generate_and_verify_webproof() {
    let tls_connection = setup_mock_tls_connection();
    let content_extractor = MockContentExtractor;
    let generator = WebProofGenerator::new(tls_connection, content_extractor)
        .expect("Failed to create WebProofGenerator");

    let proof = generator.generate_webproof().unwrap();
    let public_key = generator.public_key().unwrap();

    assert!(verify_webproof(&proof, &public_key, 300).unwrap());
}

#[test]
fn integration_tests_test_generate_and_verify_valid_webproof() {
    let tls_connection = setup_mock_tls_connection();
    let content_extractor = MockContentExtractor;
    let generator = WebProofGenerator::new(tls_connection, content_extractor)
        .expect("Failed to create WebProofGenerator");

    let proof = generator.generate_webproof().unwrap();
    let public_key = generator.public_key().unwrap();

    assert!(verify_webproof(&proof, &public_key, 300).unwrap());
}

#[test]
fn test_invalid_proof() {
    let tls_connection = setup_mock_tls_connection();
    let content_extractor = MockContentExtractor;
    let generator = WebProofGenerator::new(tls_connection, content_extractor).unwrap();

    let mut proof = generator.generate_webproof().unwrap();

    // Tamper with the proof
    proof.push_str("x");

    let public_key = generator.public_key().unwrap();

    let is_valid = matches!(verify_webproof(&proof, &public_key, 300), Ok(true));

    assert!(!is_valid, "Tampered proof should not be valid");
}

struct DifferentContentExtractor;

impl WebContentExtractor<MockTlsConnection> for DifferentContentExtractor {
    fn extract_content(
        &self,
        _tls_connection: &MockTlsConnection,
    ) -> Result<String, ProofError> {
        Ok("Different content".to_string())
    }
}

#[test]
fn test_different_content_invalid() {
    let tls_connection = setup_mock_tls_connection();
    let content_extractor = MockContentExtractor;
    let generator = WebProofGenerator::new(tls_connection, content_extractor).unwrap();

    let proof = generator.generate_webproof().unwrap();
    let original_public_key = generator.public_key().unwrap();

    // A second generator on the same session gets a fresh instance
    // identifier, so it derives a different keypair.
    let different_generator =
        WebProofGenerator::new(setup_mock_tls_connection(), DifferentContentExtractor).unwrap();
    let different_public_key = different_generator.public_key().unwrap();

    println!("Original public key: {:?}", original_public_key);
    println!("Different public key: {:?}", different_public_key);
    println!("Proof: {}", proof);

    let is_valid_original = verify_webproof(&proof, &original_public_key, 300).unwrap();
    let is_valid_different = verify_webproof(&proof, &different_public_key, 300).unwrap();

    println!("Is valid with original key: {}", is_valid_original);
    println!("Is valid with different key: {}", is_valid_different);

    assert!(is_valid_original, "Proof should be valid with the original public key");
    assert!(
        !is_valid_different,
        "Proof should not be valid with a different public key"
    );
}

#[test]
fn weproof_tests_test_generate_and_verify_valid_webproof() {
    let session_id = b"test-session-id";

    let webproof = build_proof(session_id, INSTANCE, "1234.56", now_ts()).unwrap();
    let public_key = derive_public_key(session_id, INSTANCE).unwrap();
    let is_valid = verify_webproof(&webproof, &public_key, 300).unwrap();

    assert!(is_valid, "Valid webproof should be verified successfully");
}

#[test]
fn test_verify_expired_webproof() {
    let session_id = b"test-session-id";
    let generated_at = now_ts();

    let webproof = build_proof(session_id, INSTANCE, "1234.56", generated_at).unwrap();
    let public_key = derive_public_key(session_id, INSTANCE).unwrap();

    // Two seconds later the proof is older than a one-second window.
    let is_valid =
        verify_webproof_at(&webproof, &public_key, 1, generated_at + 2).unwrap();

    assert!(!is_valid, "Expired webproof should not be verified");
}

#[test]
fn test_verify_tampered_webproof() {
    let session_id = b"test-session-id";
    let generated_at = now_ts();

    let webproof = build_proof(session_id, INSTANCE, "1234.56", generated_at).unwrap();
    let public_key = derive_public_key(session_id, INSTANCE).unwrap();

    // Tamper with the price in the webproof
    let tampered = webproof.replace("1234.56", "5678.90");

    let is_valid = verify_webproof_at(&tampered, &public_key, 300, generated_at).unwrap();

    assert!(!is_valid, "Tampered webproof should not be verified");
}

#[test]
fn test_verify_webproof_with_invalid_format() {
    let public_key = derive_public_key(b"test-session-id", INSTANCE).unwrap();
    let invalid_webproof = "This is not a valid webproof".to_string();

    let result = verify_webproof(&invalid_webproof, &public_key, 300);

    assert!(result.is_err(), "Invalid format should return an error");
}

#[test]
fn test_generate_unique_proofs() {
    let session_id_1 = b"test-session-id-1";
    let session_id_2 = b"test-session-id-2";
    let at = now_ts();

    let webproof_1 = build_proof(session_id_1, INSTANCE, "1234.56", at).unwrap();
    let webproof_2 = build_proof(session_id_2, INSTANCE, "1234.56", at).unwrap();

    assert_ne!(
        webproof_1, webproof_2,
        "Proofs should be unique for different session IDs"
    );
}

#[test]
fn test_new_requires_session_binding() {
    let no_suite = MockTlsConnection { cipher_suite: None };
    let r = WebProofGenerator::new(no_suite, MockContentExtractor);
    assert!(
        matches!(r, Err(ProofError::KeyDerivation)),
        "a connection without a cipher suite must be refused"
    );

    let empty_suite = MockTlsConnection {
        cipher_suite: Some(String::new()),
    };
    let r2 = WebProofGenerator::new(empty_suite, MockContentExtractor);
    assert!(
        matches!(r2, Err(ProofError::KeyDerivation)),
        "an empty session binding must be refused"
    );
}

struct FailingContentExtractor;

impl WebContentExtractor<MockTlsConnection> for FailingContentExtractor {
    fn extract_content(
        &self,
        _tls_connection: &MockTlsConnection,
    ) -> Result<String, ProofError> {
        Err(ProofError::ContentExtraction)
    }
}

#[test]
fn test_failing_content_source_propagates() {
    let generator =
        WebProofGenerator::new(setup_mock_tls_connection(), FailingContentExtractor).unwrap();
    assert_eq!(generator.generate_webproof(), Err(ProofError::ContentExtraction));
}

struct DelimiterContentExtractor;

impl WebContentExtractor<MockTlsConnection> for DelimiterContentExtractor {
    fn extract_content(
        &self,
        _tls_connection: &MockTlsConnection,
    ) -> Result<String, ProofError> {
        Ok("price|100".to_string())
    }
}

#[test]
fn test_unframable_content_is_refused() {
    let generator =
        WebProofGenerator::new(setup_mock_tls_connection(), DelimiterContentExtractor).unwrap();
    assert_eq!(generator.generate_webproof(), Err(ProofError::ContentExtraction));
}

#[test]
fn test_verify_webproof_with_different_session_id() {
    let session_id_1 = b"test-session-id-1";
    let session_id_2 = b"test-session-id-2";
    let at = now_ts();

    let webproof = build_proof(session_id_1, INSTANCE, "1234.56", at).unwrap();

    // Attempt to verify with a key derived from a different session ID.
    let other_key = derive_public_key(session_id_2, INSTANCE).unwrap();
    let is_valid = verify_webproof_at(&webproof, &other_key, 300, at).unwrap();

    assert!(!is_valid, "Webproof should not be valid with a different session ID");
}
