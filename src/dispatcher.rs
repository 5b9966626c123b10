use vstd::prelude::*;

use crate::authentication::{
    ActionableClient, AuthenticationError, InstallationAuthenticator, OfflineAuthenticator,
};
use crate::body::{concat_chunks, materialize_body, materialized, BodyChunks, BodyError};
use crate::event::{
    classification, classify_event, ClassificationError, EventEnvelope, EventKind, EventRefs,
    GitHubEventHeaderError,
};
use crate::header::{bytes_of, declared_length, parse_content_length, ContentLengthError};
use crate::signature::{
    signature_header, ExtractSignatureHeader, SignatureAlgorithm, SignatureHeaderError,
    SignatureHeaderValue,
};
use crate::verification::{signature_check, verify_signature, VerificationError, WebhookSecret};

verus! {

/// The stages a request passes through, in order.
#[derive(Debug, Clone, Copy, PartialEq, Eq, Structural)]
pub enum Stage {
    Received,
    HeaderValidated,
    BodyMaterialized,
    SignatureVerified,
    EventClassified,
    Authenticated,
    Dispatched,
}

/// Why a request was turned away.
#[derive(Debug, Clone, Copy, PartialEq, Eq, Structural)]
pub enum GitHubEventExtractionError {
    MissingSignatureHeader,
    MalformedSignatureHeader,
    UnsupportedSignatureAlgorithm,
    NotHexEncoded,
    MissingContentLength,
    NonNumericContentLength,
    BodyShorterThanDeclared,
    InvalidKeyMaterial,
    SignatureMismatch,
    MissingEventHeader,
    InvalidHeaderEncoding,
    EventPayloadUnparsable,
    AuthenticationInfrastructureFailure,
    StreamReadFailure,
}

/// The HTTP status a rejection is answered with: 500 for failures on this
/// side, 400 for faults in the request.
pub open spec fn rejection_status(reason: GitHubEventExtractionError) -> u16 {
    match reason {
        GitHubEventExtractionError::AuthenticationInfrastructureFailure => 500,
        GitHubEventExtractionError::StreamReadFailure => 500,
        _ => 400,
    }
}

impl GitHubEventExtractionError {
    /// The rejection for a body that could not be materialized.
    pub fn from_body_error(e: BodyError) -> (r: GitHubEventExtractionError)
        ensures
            r == body_rejection(e),
    {
        match e {
            BodyError::BodyShorterThanDeclared => GitHubEventExtractionError::BodyShorterThanDeclared,
            BodyError::StreamReadFailure => GitHubEventExtractionError::StreamReadFailure,
        }
    }

    pub fn status_code(&self) -> (r: u16)
        ensures
            r == rejection_status(*self),
    {
        match self {
            GitHubEventExtractionError::AuthenticationInfrastructureFailure => 500,
            GitHubEventExtractionError::StreamReadFailure => 500,
            _ => 400,
        }
    }
}

pub open spec fn signature_rejection(e: SignatureHeaderError) -> GitHubEventExtractionError {
    match e {
        SignatureHeaderError::MissingHeader => GitHubEventExtractionError::MissingSignatureHeader,
        SignatureHeaderError::InvalidValue => GitHubEventExtractionError::MalformedSignatureHeader,
        SignatureHeaderError::NotAPair => GitHubEventExtractionError::MalformedSignatureHeader,
        SignatureHeaderError::UnsupportedAlgorithm => GitHubEventExtractionError::UnsupportedSignatureAlgorithm,
        SignatureHeaderError::NotHex => GitHubEventExtractionError::NotHexEncoded,
    }
}

pub open spec fn length_rejection(e: ContentLengthError) -> GitHubEventExtractionError {
    match e {
        ContentLengthError::MissingContentLength => GitHubEventExtractionError::MissingContentLength,
        ContentLengthError::NonNumericContentLength => GitHubEventExtractionError::NonNumericContentLength,
    }
}

pub open spec fn verification_rejection(e: VerificationError) -> GitHubEventExtractionError {
    match e {
        VerificationError::UnsupportedAlgorithm => GitHubEventExtractionError::UnsupportedSignatureAlgorithm,
        VerificationError::InvalidKeyMaterial => GitHubEventExtractionError::InvalidKeyMaterial,
        VerificationError::SignatureMismatch => GitHubEventExtractionError::SignatureMismatch,
    }
}

pub open spec fn classification_rejection(e: ClassificationError) -> GitHubEventExtractionError {
    match e {
        ClassificationError::Header(GitHubEventHeaderError::MissingHeader) => GitHubEventExtractionError::MissingEventHeader,
        ClassificationError::Header(GitHubEventHeaderError::InvalidValue) => GitHubEventExtractionError::InvalidHeaderEncoding,
        ClassificationError::EventPayloadUnparsable => GitHubEventExtractionError::EventPayloadUnparsable,
    }
}

/// The headers of a delivery that the pipeline reads, as raw bytes.
pub struct RequestHeaders {
    /// `X-Hub-Signature-256`
    pub signature: Option<Vec<u8>>,
    /// `X-GitHub-Event`
    pub event: Option<Vec<u8>>,
    /// `Content-Length`
    pub content_length: Option<Vec<u8>>,
}

pub open spec fn opt_bytes(o: Option<Vec<u8>>) -> Option<Seq<u8>> {
    match o {
        Some(v) => Some(v@),
        None => None,
    }
}

/// The checks made on the headers before any byte of the body is read: the
/// signature's digest and the declared length, or the first failure.
pub open spec fn header_check(signature: Option<Seq<u8>>, content_length: Option<Seq<u8>>) -> Result<
    (Seq<u8>, nat),
    GitHubEventExtractionError,
> {
    match signature_header(signature) {
        Err(e) => Err(signature_rejection(e)),
        Ok(digest) => match declared_length(content_length) {
            Err(e) => Err(length_rejection(e)),
            Ok(n) => Ok((digest, n)),
        },
    }
}

/// What the stages after the body make of it: the event's kind and
/// references, or the stage last reached and the reason for stopping.
pub open spec fn body_check(
    key: Seq<u8>,
    event: Option<Seq<u8>>,
    algorithm: SignatureAlgorithm,
    digest: Seq<u8>,
    body: Seq<u8>,
) -> Result<(EventKind, EventRefs), (Stage, GitHubEventExtractionError)> {
    match signature_check(algorithm, digest, key, body) {
        Err(e) => Err((Stage::BodyMaterialized, verification_rejection(e))),
        Ok(()) => match classification(event, body) {
            Err(e) => Err((Stage::SignatureVerified, classification_rejection(e))),
            Ok(c) => Ok(c),
        },
    }
}

pub open spec fn body_rejection(e: BodyError) -> GitHubEventExtractionError {
    match e {
        BodyError::BodyShorterThanDeclared => GitHubEventExtractionError::BodyShorterThanDeclared,
        BodyError::StreamReadFailure => GitHubEventExtractionError::StreamReadFailure,
    }
}

/// The pipeline up to classification, for a request with these headers
/// whose body stream yields `chunks` and then ends, with a transport error
/// where `stream_failed`.
pub open spec fn pipeline(
    key: Seq<u8>,
    signature: Option<Seq<u8>>,
    event: Option<Seq<u8>>,
    content_length: Option<Seq<u8>>,
    chunks: Seq<Seq<u8>>,
    stream_failed: bool,
) -> Result<(EventKind, EventRefs, Seq<u8>), (Stage, GitHubEventExtractionError)> {
    match header_check(signature, content_length) {
        Err(e) => Err((Stage::Received, e)),
        Ok((digest, n)) => match materialized(n, chunks, stream_failed) {
            Err(e) => Err((Stage::HeaderValidated, body_rejection(e))),
            Ok(body) => match body_check(key, event, SignatureAlgorithm::Sha256, digest, body) {
                Err(e) => Err(e),
                Ok((kind, refs)) => Ok((kind, refs, body)),
            },
        },
    }
}

/// Headers that passed validation.
pub struct ValidatedHeaders {
    pub signature: SignatureHeaderValue,
    pub declared_length: usize,
}

/// Checks the signature and length headers; no body byte is needed.
pub fn validate_headers(headers: &RequestHeaders) -> (r: Result<ValidatedHeaders, GitHubEventExtractionError>)
    ensures
        match (r, header_check(opt_bytes(headers.signature), opt_bytes(headers.content_length))) {
            (Ok(v), Ok((digest, n))) => v.signature.digest@ == digest && v.signature.algorithm
                == SignatureAlgorithm::Sha256 && v.declared_length == n,
            (Err(e), Err(f)) => e == f,
            _ => false,
        },
{
    let signature = match &headers.signature {
        Some(v) => ExtractSignatureHeader::from_header_value(Some(v.as_slice())),
        None => ExtractSignatureHeader::from_header_value(None),
    };
    let signature = match signature {
        Ok(ExtractSignatureHeader(s)) => s,
        Err(e) => {
            let reason = match e {
                SignatureHeaderError::MissingHeader => GitHubEventExtractionError::MissingSignatureHeader,
                SignatureHeaderError::InvalidValue => GitHubEventExtractionError::MalformedSignatureHeader,
                SignatureHeaderError::NotAPair => GitHubEventExtractionError::MalformedSignatureHeader,
                SignatureHeaderError::UnsupportedAlgorithm => GitHubEventExtractionError::UnsupportedSignatureAlgorithm,
                SignatureHeaderError::NotHex => GitHubEventExtractionError::NotHexEncoded,
            };
            return Err(reason);
        },
    };
    let length = match &headers.content_length {
        Some(v) => parse_content_length(Some(v.as_slice())),
        None => parse_content_length(None),
    };
    match length {
        Ok(declared_length) => Ok(ValidatedHeaders { signature, declared_length }),
        Err(ContentLengthError::MissingContentLength) => Err(GitHubEventExtractionError::MissingContentLength),
        Err(ContentLengthError::NonNumericContentLength) => Err(GitHubEventExtractionError::NonNumericContentLength),
    }
}

/// The result of a request: turned away at some stage, or handed on with
/// its event and, where the event names an installation, a client scoped
/// to it.
pub enum Outcome {
    Rejected { stage: Stage, reason: GitHubEventExtractionError },
    Dispatched { envelope: EventEnvelope, client: Option<ActionableClient> },
}

pub open spec fn outcome_status(o: Outcome) -> u16 {
    match o {
        Outcome::Rejected { reason, .. } => rejection_status(reason),
        Outcome::Dispatched { .. } => 200,
    }
}

impl Outcome {
    /// The HTTP status the request is answered with.
    pub fn status_code(&self) -> (r: u16)
        ensures
            r == outcome_status(*self),
    {
        match self {
            Outcome::Rejected { reason, .. } => reason.status_code(),
            Outcome::Dispatched { .. } => 200,
        }
    }
}

/// What a request whose body stages gave `checked` becomes: rejected as
/// they say, or, where the event names an installation, dispatched with
/// the client that `client.for_installation` answered, or rejected with
/// the failure it answered.
pub open spec fn completed<C: InstallationAuthenticator>(
    client: &C,
    o: Outcome,
    checked: Result<(EventKind, EventRefs), (Stage, GitHubEventExtractionError)>,
    body: Seq<u8>,
) -> bool {
    match checked {
        Err((stage, reason)) => o == (Outcome::Rejected { stage, reason }),
        Ok((kind, refs)) => match o {
            Outcome::Dispatched { envelope, client: scoped } => envelope.kind == kind
                && envelope.installation_ref == refs.0 && envelope.repository_ref == refs.1
                && envelope.sender == refs.2 && envelope.raw.bytes() == body && match refs.0 {
                None => scoped is None,
                Some(id) => scoped matches Some(c) && c.spec_installation() == id && call_ensures(
                    C::for_installation,
                    (client, id),
                    Ok(c),
                ),
            },
            Outcome::Rejected { stage, reason } => refs.0 matches Some(id) && stage
                == Stage::EventClassified && reason
                == GitHubEventExtractionError::AuthenticationInfrastructureFailure && call_ensures(
                C::for_installation,
                (client, id),
                Err(AuthenticationError::AuthenticationInfrastructureFailure),
            ),
        },
    }
}

/// Runs the stages after the body has been materialized: signature check,
/// classification, authentication for the event's installation, dispatch.
pub fn complete_request<C: InstallationAuthenticator>(
    client: &C,
    secret: &WebhookSecret,
    event_header: Option<&[u8]>,
    validated: &ValidatedHeaders,
    body: Vec<u8>,
) -> (r: Outcome)
    ensures
        completed(
            client,
            r,
            body_check(
                secret.key(),
                bytes_of(event_header),
                validated.signature.algorithm,
                validated.signature.digest@,
                body@,
            ),
            body@,
        ),
{
    let ghost bytes = body@;
    let payload = match verify_signature(&validated.signature, secret, body) {
        Ok(p) => p,
        Err(e) => {
            let reason = match e {
                VerificationError::UnsupportedAlgorithm => GitHubEventExtractionError::UnsupportedSignatureAlgorithm,
                VerificationError::InvalidKeyMaterial => GitHubEventExtractionError::InvalidKeyMaterial,
                VerificationError::SignatureMismatch => GitHubEventExtractionError::SignatureMismatch,
            };
            return Outcome::Rejected { stage: Stage::BodyMaterialized, reason };
        },
    };
    let envelope = match classify_event(event_header, payload) {
        Ok(env) => env,
        Err(e) => {
            let reason = match e {
                ClassificationError::Header(GitHubEventHeaderError::MissingHeader) => GitHubEventExtractionError::MissingEventHeader,
                ClassificationError::Header(GitHubEventHeaderError::InvalidValue) => GitHubEventExtractionError::InvalidHeaderEncoding,
                ClassificationError::EventPayloadUnparsable => GitHubEventExtractionError::EventPayloadUnparsable,
            };
            return Outcome::Rejected { stage: Stage::SignatureVerified, reason };
        },
    };
    match envelope.installation_ref {
        None => Outcome::Dispatched { envelope, client: None },
        Some(id) => {
            let answer = client.for_installation(id);
            let ghost answered = answer;
            match answer {
                Ok(scoped) => Outcome::Dispatched { envelope, client: Some(scoped) },
                Err(e) => {
                    assert(answered =~= Err(
                        AuthenticationError::AuthenticationInfrastructureFailure,
                    ));
                    Outcome::Rejected {
                        stage: Stage::EventClassified,
                        reason: GitHubEventExtractionError::AuthenticationInfrastructureFailure,
                    }
                },
            }
        },
    }
}

/// What a request becomes when `client` authenticates it: the pipeline's
/// rejection, or its completion.
pub open spec fn handled<C: InstallationAuthenticator>(
    client: &C,
    r: Outcome,
    key: Seq<u8>,
    signature: Option<Seq<u8>>,
    event: Option<Seq<u8>>,
    content_length: Option<Seq<u8>>,
    chunks: Seq<Seq<u8>>,
    stream_failed: bool,
) -> bool {
    match pipeline(key, signature, event, content_length, chunks, stream_failed) {
        Err((stage, reason)) => r == (Outcome::Rejected { stage, reason }),
        Ok((kind, refs, body)) => completed(client, r, Ok((kind, refs)), body),
    }
}

/// Runs a whole request: headers first, then the body read from `source`
/// only as far as the declared length, then the later stages. No stage runs
/// after a rejection, and the body is not read when the headers fail.
pub fn handle_request<C: InstallationAuthenticator>(
    client: &C,
    secret: &WebhookSecret,
    headers: &RequestHeaders,
    source: &mut BodyChunks,
) -> (r: Outcome)
    requires
        old(source).wf(),
    ensures
        final(source).wf(),
        final(source).chunks() == old(source).chunks(),
        final(source).ends_with_failure() == old(source).ends_with_failure(),
        header_check(opt_bytes(headers.signature), opt_bytes(headers.content_length)) is Err
            ==> final(source).position() == old(source).position(),
        handled(
            client,
            r,
            secret.key(),
            opt_bytes(headers.signature),
            opt_bytes(headers.event),
            opt_bytes(headers.content_length),
            old(source).remaining(),
            old(source).ends_with_failure(),
        ),
{
    let validated = match validate_headers(headers) {
        Ok(v) => v,
        Err(reason) => return Outcome::Rejected { stage: Stage::Received, reason },
    };
    let body = match materialize_body(validated.declared_length, source) {
        Ok(b) => b,
        Err(e) => {
            return Outcome::Rejected {
                stage: Stage::HeaderValidated,
                reason: GitHubEventExtractionError::from_body_error(e),
            };
        },
    };
    match &headers.event {
        Some(e) => complete_request(client, secret, Some(e.as_slice()), &validated, body),
        None => complete_request(client, secret, None, &validated, body),
    }
}

/// A request without a signature header is turned away on arrival: it
/// never reaches the body, the MAC or any later stage.
pub proof fn lemma_missing_signature_rejected_on_arrival(
    key: Seq<u8>,
    event: Option<Seq<u8>>,
    content_length: Option<Seq<u8>>,
    chunks: Seq<Seq<u8>>,
    stream_failed: bool,
)
    ensures
        header_check(None, content_length) is Err,
        pipeline(key, None, event, content_length, chunks, stream_failed) == Err::<
            (EventKind, EventRefs, Seq<u8>),
            (Stage, GitHubEventExtractionError),
        >((Stage::Received, GitHubEventExtractionError::MissingSignatureHeader)),
{
}

/// A request whose stream holds fewer bytes than its declared length is
/// rejected before its signature is ever checked: with 400 where the
/// stream ended cleanly, with 500 where it failed.
pub proof fn lemma_short_body_never_verified(
    key: Seq<u8>,
    signature: Option<Seq<u8>>,
    event: Option<Seq<u8>>,
    content_length: Option<Seq<u8>>,
    chunks: Seq<Seq<u8>>,
    stream_failed: bool,
)
    requires
        header_check(signature, content_length) is Ok,
        concat_chunks(chunks).len() < header_check(signature, content_length)->Ok_0.1,
    ensures
        pipeline(key, signature, event, content_length, chunks, stream_failed) == Err::<
            (EventKind, EventRefs, Seq<u8>),
            (Stage, GitHubEventExtractionError),
        >(
            (
                Stage::HeaderValidated,
                if stream_failed {
                    GitHubEventExtractionError::StreamReadFailure
                } else {
                    GitHubEventExtractionError::BodyShorterThanDeclared
                },
            ),
        ),
{
}

/// A request without a `Content-Length` header is answered with 400 on
/// arrival, so its body is never read.
pub proof fn lemma_missing_length_rejected_unread(
    key: Seq<u8>,
    signature: Option<Seq<u8>>,
    event: Option<Seq<u8>>,
    chunks: Seq<Seq<u8>>,
    stream_failed: bool,
)
    ensures
        header_check(signature, None) is Err,
        pipeline(key, signature, event, None, chunks, stream_failed) matches Err((stage, reason))
            && stage == Stage::Received && rejection_status(reason) == 400,
{
}

/// With the network-free authenticator, every request that passes the
/// checks up to classification is dispatched, answered with 200.
pub proof fn lemma_offline_double_dispatches(
    r: Outcome,
    key: Seq<u8>,
    signature: Option<Seq<u8>>,
    event: Option<Seq<u8>>,
    content_length: Option<Seq<u8>>,
    chunks: Seq<Seq<u8>>,
    stream_failed: bool,
)
    requires
        pipeline(key, signature, event, content_length, chunks, stream_failed) is Ok,
        handled(
            &OfflineAuthenticator,
            r,
            key,
            signature,
            event,
            content_length,
            chunks,
            stream_failed,
        ),
    ensures
        r is Dispatched,
        outcome_status(r) == 200,
{
}

} // verus!
