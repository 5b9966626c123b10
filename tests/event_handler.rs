use mergeable_server::authentication::{
    ActionableClient, AuthenticationError, InstallationAuthenticator, OfflineAuthenticator,
};
use mergeable_server::body::BodyChunks;
use mergeable_server::dispatcher::{handle_request, Outcome, GitHubEventExtractionError, RequestHeaders, Stage};
use mergeable_server::event::EventKind;
use mergeable_server::verification::WebhookSecret;
use orion::hazardous::mac::hmac::sha256::{HmacSha256, SecretKey};

fn zero_secret() -> WebhookSecret {
    WebhookSecret::new(vec![0u8; 32])
}

fn hello_world_body() -> Vec<u8> {
    b"{\"hello\":\"world\"}".to_vec()
}

fn calc_hmac_for_body(secret: &[u8], data: &[u8]) -> String {
    let key = SecretKey::from_slice(secret).unwrap();
    hex::encode(HmacSha256::hmac(&key, data).unwrap().unprotected_as_bytes())
}

fn headers(signature: Option<String>, body: &[u8]) -> RequestHeaders {
    RequestHeaders {
        signature: signature.map(|s| s.into_bytes()),
        event: Some(b"pull_request.*".to_vec()),
        content_length: Some(body.len().to_string().into_bytes()),
    }
}

fn run(h: &RequestHeaders, chunks: Vec<Vec<u8>>) -> (Outcome, usize) {
    let mut source = BodyChunks::new(chunks);
    let outcome = handle_request(&OfflineAuthenticator, &zero_secret(), h, &mut source);
    (outcome, source.chunks_read())
}

fn rejection(o: &Outcome) -> Option<(Stage, GitHubEventExtractionError)> {
    match o {
        Outcome::Rejected { stage, reason } => Some((*stage, *reason)),
        Outcome::Dispatched { .. } => None,
    }
}

#[test]
fn test_happy_path() {
    let body = hello_world_body();
    let body_hmac = calc_hmac_for_body(&[0u8; 32], &body);
    let h = headers(Some(format!("sha256={body_hmac}")), &body);
    let (outcome, _) = run(&h, vec![body.clone()]);
    assert_eq!(outcome.status_code(), 200);
    match outcome {
        Outcome::Dispatched { envelope, client } => {
            assert_eq!(envelope.kind, EventKind::PullRequest);
            assert_eq!(envelope.installation_ref, None);
            assert!(client.is_none());
            assert_eq!(envelope.raw.as_bytes(), body.as_slice());
        }
        Outcome::Rejected { .. } => panic!("expected dispatch"),
    }
}

#[test]
fn test_missing_signature() {
    let body = hello_world_body();
    let h = headers(None, &body);
    let (outcome, read) = run(&h, vec![body]);
    assert_eq!(outcome.status_code(), 400);
    assert_eq!(
        rejection(&outcome),
        Some((Stage::Received, GitHubEventExtractionError::MissingSignatureHeader))
    );
    assert_eq!(read, 0);
}

#[test]
fn test_wrong_signature() {
    let body = hello_world_body();
    let h = headers(
        Some("sha256=46288437613044114D21E7FAD79837C12336202F4C85008548FB226693426F56".to_string()),
        &body,
    );
    let (outcome, _) = run(&h, vec![body]);
    assert_eq!(outcome.status_code(), 400);
    assert_eq!(
        rejection(&outcome),
        Some((Stage::BodyMaterialized, GitHubEventExtractionError::SignatureMismatch))
    );
}

#[test]
fn all_zero_digest_is_rejected() {
    let body = hello_world_body();
    let h = headers(Some(format!("sha256={}", "00".repeat(32))), &body);
    let (outcome, _) = run(&h, vec![body]);
    assert_eq!(outcome.status_code(), 400);
}

#[test]
fn missing_content_length_reads_nothing() {
    let body = hello_world_body();
    let body_hmac = calc_hmac_for_body(&[0u8; 32], &body);
    let mut h = headers(Some(format!("sha256={body_hmac}")), &body);
    h.content_length = None;
    let (outcome, read) = run(&h, vec![body]);
    assert_eq!(outcome.status_code(), 400);
    assert_eq!(
        rejection(&outcome),
        Some((Stage::Received, GitHubEventExtractionError::MissingContentLength))
    );
    assert_eq!(read, 0);
}

#[test]
fn non_numeric_content_length_reads_nothing() {
    let body = hello_world_body();
    let body_hmac = calc_hmac_for_body(&[0u8; 32], &body);
    let mut h = headers(Some(format!("sha256={body_hmac}")), &body);
    h.content_length = Some(b"17x".to_vec());
    let (outcome, read) = run(&h, vec![body]);
    assert_eq!(
        rejection(&outcome),
        Some((Stage::Received, GitHubEventExtractionError::NonNumericContentLength))
    );
    assert_eq!(read, 0);
}

#[test]
fn short_body_never_reaches_verification() {
    let body = hello_world_body();
    let body_hmac = calc_hmac_for_body(&[0u8; 32], &body);
    let h = headers(Some(format!("sha256={body_hmac}")), &body);
    let (outcome, read) = run(&h, vec![body[..5].to_vec(), body[5..10].to_vec()]);
    assert_eq!(outcome.status_code(), 400);
    assert_eq!(
        rejection(&outcome),
        Some((Stage::HeaderValidated, GitHubEventExtractionError::BodyShorterThanDeclared))
    );
    assert_eq!(read, 2);
}

#[test]
fn body_in_chunks_stops_at_declared_length() {
    let body = hello_world_body();
    let body_hmac = calc_hmac_for_body(&[0u8; 32], &body);
    let h = headers(Some(format!("sha256={body_hmac}")), &body);
    let chunks = vec![
        body[..4].to_vec(),
        body[4..].to_vec(),
        b"trailing".to_vec(),
    ];
    let (outcome, read) = run(&h, chunks);
    assert_eq!(outcome.status_code(), 200);
    assert_eq!(read, 2);
}

#[test]
fn unsupported_algorithm_is_rejected() {
    let body = hello_world_body();
    let h = headers(Some("sha1=abcd".to_string()), &body);
    let (outcome, _) = run(&h, vec![body]);
    assert_eq!(
        rejection(&outcome),
        Some((Stage::Received, GitHubEventExtractionError::UnsupportedSignatureAlgorithm))
    );
}

#[test]
fn missing_event_header_is_rejected_after_verification() {
    let body = hello_world_body();
    let body_hmac = calc_hmac_for_body(&[0u8; 32], &body);
    let mut h = headers(Some(format!("sha256={body_hmac}")), &body);
    h.event = None;
    let (outcome, _) = run(&h, vec![body]);
    assert_eq!(
        rejection(&outcome),
        Some((Stage::SignatureVerified, GitHubEventExtractionError::MissingEventHeader))
    );
}

#[test]
fn non_text_event_header_is_rejected() {
    let body = hello_world_body();
    let body_hmac = calc_hmac_for_body(&[0u8; 32], &body);
    let mut h = headers(Some(format!("sha256={body_hmac}")), &body);
    h.event = Some(vec![112, 0x80]);
    let (outcome, _) = run(&h, vec![body]);
    assert_eq!(
        rejection(&outcome),
        Some((Stage::SignatureVerified, GitHubEventExtractionError::InvalidHeaderEncoding))
    );
}

#[test]
fn unparsable_payload_is_rejected() {
    let body = b"not json".to_vec();
    let body_hmac = calc_hmac_for_body(&[0u8; 32], &body);
    let h = headers(Some(format!("sha256={body_hmac}")), &body);
    let (outcome, _) = run(&h, vec![body]);
    assert_eq!(
        rejection(&outcome),
        Some((Stage::SignatureVerified, GitHubEventExtractionError::EventPayloadUnparsable))
    );
    assert_eq!(outcome.status_code(), 400);
}

fn installation_body() -> Vec<u8> {
    b"{\"installation\":{\"id\":42,\"node_id\":\"MDIz\"},\"hello\":\"world\"}".to_vec()
}

#[test]
fn offline_authenticator_dispatches_with_scoped_client() {
    let body = installation_body();
    let body_hmac = calc_hmac_for_body(&[0u8; 32], &body);
    let h = headers(Some(format!("sha256={body_hmac}")), &body);
    let (outcome, _) = run(&h, vec![body]);
    assert_eq!(outcome.status_code(), 200);
    match outcome {
        Outcome::Dispatched { envelope, client } => {
            assert_eq!(envelope.installation_ref, Some(42));
            assert_eq!(client.map(|c| c.installation()), Some(42));
        }
        Outcome::Rejected { .. } => panic!("expected dispatch"),
    }
}

struct Unreachable;

impl InstallationAuthenticator for Unreachable {
    fn for_installation(&self, _id: u64) -> Result<ActionableClient, AuthenticationError> {
        Err(AuthenticationError::AuthenticationInfrastructureFailure)
    }
}

#[test]
fn authentication_failure_is_a_server_error() {
    let body = installation_body();
    let body_hmac = calc_hmac_for_body(&[0u8; 32], &body);
    let h = headers(Some(format!("sha256={body_hmac}")), &body);
    let mut source = BodyChunks::new(vec![body]);
    let outcome = handle_request(&Unreachable, &zero_secret(), &h, &mut source);
    assert_eq!(outcome.status_code(), 500);
    assert_eq!(
        rejection(&outcome),
        Some((Stage::EventClassified, GitHubEventExtractionError::AuthenticationInfrastructureFailure))
    );
}

#[test]
fn failing_stream_is_a_server_error() {
    let body = hello_world_body();
    let body_hmac = calc_hmac_for_body(&[0u8; 32], &body);
    let h = headers(Some(format!("sha256={body_hmac}")), &body);
    let mut source = BodyChunks::failing(vec![body[..5].to_vec()]);
    let outcome = handle_request(&OfflineAuthenticator, &zero_secret(), &h, &mut source);
    assert_eq!(outcome.status_code(), 500);
    assert_eq!(
        rejection(&outcome),
        Some((Stage::HeaderValidated, GitHubEventExtractionError::StreamReadFailure))
    );
}

#[test]
fn digest_of_wrong_length_is_rejected() {
    let body = hello_world_body();
    let body_hmac = calc_hmac_for_body(&[0u8; 32], &body);
    let h = headers(Some(format!("sha256={}", &body_hmac[..62])), &body);
    let (outcome, _) = run(&h, vec![body]);
    assert_eq!(
        rejection(&outcome),
        Some((Stage::BodyMaterialized, GitHubEventExtractionError::SignatureMismatch))
    );
}
