use vstd::prelude::*;

use crate::header::{
    bytes_of, contains_byte, find_byte, first_index, header_value_is_text, is_text_value,
};
use crate::verification::VerifiedPayload;
use octocrab::models::webhook_events::{EventInstallation, WebhookEvent};

verus! {

/// The event kinds the pipeline tells apart; anything else is `Unsupported`.
#[derive(Debug, Clone, Copy, PartialEq, Eq, Structural)]
pub enum EventKind {
    PullRequest,
    PullRequestReview,
    Issues,
    CheckSuite,
    Status,
    Schedule,
    Unsupported,
}

/// The name under which each supported kind is delivered.
pub open spec fn kind_name(kind: EventKind) -> Seq<u8> {
    match kind {
        EventKind::PullRequest => seq![112u8, 117, 108, 108, 95, 114, 101, 113, 117, 101, 115, 116],
        EventKind::PullRequestReview => seq![
            112u8, 117, 108, 108, 95, 114, 101, 113, 117, 101, 115, 116, 95, 114, 101, 118, 105, 101, 119,
        ],
        EventKind::Issues => seq![105u8, 115, 115, 117, 101, 115],
        EventKind::CheckSuite => seq![99u8, 104, 101, 99, 107, 95, 115, 117, 105, 116, 101],
        EventKind::Status => seq![115u8, 116, 97, 116, 117, 115],
        EventKind::Schedule => seq![115u8, 99, 104, 101, 100, 117, 108, 101],
        EventKind::Unsupported => Seq::empty(),
    }
}

/// The byte `.` that separates an event name from its action.
pub open spec fn action_separator() -> u8 {
    46
}

/// The event name of a header value: what stands before the first `.`.
pub open spec fn event_name(header: Seq<u8>) -> Seq<u8> {
    if contains_byte(header, action_separator()) {
        header.take(first_index(header, action_separator()))
    } else {
        header
    }
}

/// The kind that an event name stands for.
pub open spec fn kind_of_name(name: Seq<u8>) -> EventKind {
    if name == kind_name(EventKind::PullRequest) {
        EventKind::PullRequest
    } else if name == kind_name(EventKind::PullRequestReview) {
        EventKind::PullRequestReview
    } else if name == kind_name(EventKind::Issues) {
        EventKind::Issues
    } else if name == kind_name(EventKind::CheckSuite) {
        EventKind::CheckSuite
    } else if name == kind_name(EventKind::Status) {
        EventKind::Status
    } else if name == kind_name(EventKind::Schedule) {
        EventKind::Schedule
    } else {
        EventKind::Unsupported
    }
}

fn kind_name_bytes(kind: EventKind) -> (r: Vec<u8>)
    ensures
        r@ == kind_name(kind),
{
    match kind {
        EventKind::PullRequest => vec![112u8, 117, 108, 108, 95, 114, 101, 113, 117, 101, 115, 116],
        EventKind::PullRequestReview => vec![
            112u8, 117, 108, 108, 95, 114, 101, 113, 117, 101, 115, 116, 95, 114, 101, 118, 105, 101, 119,
        ],
        EventKind::Issues => vec![105u8, 115, 115, 117, 101, 115],
        EventKind::CheckSuite => vec![99u8, 104, 101, 99, 107, 95, 115, 117, 105, 116, 101],
        EventKind::Status => vec![115u8, 116, 97, 116, 117, 115],
        EventKind::Schedule => vec![115u8, 99, 104, 101, 100, 117, 108, 101],
        EventKind::Unsupported => Vec::new(),
    }
}

fn bytes_equal(a: &[u8], b: &[u8]) -> (r: bool)
    ensures
        r == (a@ == b@),
{
    if a.len() != b.len() {
        return false;
    }
    let mut i: usize = 0;
    while i < a.len()
        invariant
            i <= a@.len(),
            a@.len() == b@.len(),
            forall|j: int| 0 <= j < i ==> a@[j] == b@[j],
        decreases a@.len() - i,
    {
        if a[i] != b[i] {
            return false;
        }
        i += 1;
    }
    assert(a@ =~= b@);
    true
}

fn is_named(name: &[u8], kind: EventKind) -> (r: bool)
    ensures
        r == (name@ == kind_name(kind)),
{
    let expected = kind_name_bytes(kind);
    bytes_equal(name, expected.as_slice())
}

/// Reads the kind of an event from its `X-GitHub-Event` value, which may
/// carry an action after a `.` (`pull_request.opened`).
pub fn classify_kind(header: &[u8]) -> (r: EventKind)
    ensures
        r == kind_of_name(event_name(header@)),
{
    let name = match find_byte(header, 46) {
        Some(i) => {
            let (name, _) = header.split_at(i);
            assert(name@ =~= header@.take(i as int));
            name
        },
        None => header,
    };
    if is_named(name, EventKind::PullRequest) {
        EventKind::PullRequest
    } else if is_named(name, EventKind::PullRequestReview) {
        EventKind::PullRequestReview
    } else if is_named(name, EventKind::Issues) {
        EventKind::Issues
    } else if is_named(name, EventKind::CheckSuite) {
        EventKind::CheckSuite
    } else if is_named(name, EventKind::Status) {
        EventKind::Status
    } else if is_named(name, EventKind::Schedule) {
        EventKind::Schedule
    } else {
        EventKind::Unsupported
    }
}

/// The references a payload carries: installation, repository and sender ids.
pub type EventRefs = (Option<u64>, Option<u64>, Option<u64>);

/// What octocrab reads from an event's header value and body: its
/// installation, repository and sender ids, or `None` where it refuses
/// the payload.
pub uninterp spec fn webhook_event_refs(kind: Seq<u8>, body: Seq<u8>) -> Option<EventRefs>;

/// Relies on octocrab's `WebhookEvent::try_from_header_and_body`, which
/// decodes a payload against the schema its header names; only the ids of
/// the installation, repository and sender are kept.
#[verifier::external_body]
fn parse_webhook_event(kind: &[u8], body: &[u8]) -> (r: Option<EventRefs>)
    ensures
        r == webhook_event_refs(kind@, body@),
{
    let kind = String::from_utf8_lossy(kind);
    let event = WebhookEvent::try_from_header_and_body(kind.as_ref(), body).ok()?;
    let installation = event.installation.map(|i| match i {
        EventInstallation::Full(full) => full.id.0,
        EventInstallation::Minimal(minimal) => minimal.id.0,
    });
    Some((installation, event.repository.map(|r| r.id.0), event.sender.map(|s| s.id.0)))
}

/// Why the event header could not be read.
#[derive(Debug, Clone, Copy, PartialEq, Eq, Structural)]
pub enum GitHubEventHeaderError {
    /// The header is absent.
    MissingHeader,
    /// The value holds bytes that are not visible ASCII.
    InvalidValue,
}

/// Why a verified delivery could not be classified.
#[derive(Debug, Clone, Copy, PartialEq, Eq, Structural)]
pub enum ClassificationError {
    Header(GitHubEventHeaderError),
    /// The payload does not fit the schema its event kind implies.
    EventPayloadUnparsable,
}

/// A verified delivery with the references the pipeline needs.
pub struct EventEnvelope {
    pub kind: EventKind,
    pub installation_ref: Option<u64>,
    pub repository_ref: Option<u64>,
    pub sender: Option<u64>,
    pub raw: VerifiedPayload,
}

/// What classifying a verified body under an event header gives: the kind
/// and the references, or the first reason it fails.
pub open spec fn classification(header: Option<Seq<u8>>, body: Seq<u8>) -> Result<
    (EventKind, EventRefs),
    ClassificationError,
> {
    match header {
        None => Err(ClassificationError::Header(GitHubEventHeaderError::MissingHeader)),
        Some(h) => if !is_text_value(h) {
            Err(ClassificationError::Header(GitHubEventHeaderError::InvalidValue))
        } else {
            match webhook_event_refs(h, body) {
                None => Err(ClassificationError::EventPayloadUnparsable),
                Some(refs) => Ok((kind_of_name(event_name(h)), refs)),
            }
        },
    }
}

/// Classifies a verified payload under its `X-GitHub-Event` value.
pub fn classify_event(header: Option<&[u8]>, payload: VerifiedPayload) -> (r: Result<
    EventEnvelope,
    ClassificationError,
>)
    ensures
        match (r, classification(bytes_of(header), payload.bytes())) {
            (Ok(env), Ok((kind, refs))) => env.kind == kind && env.installation_ref == refs.0
                && env.repository_ref == refs.1 && env.sender == refs.2 && env.raw.bytes()
                == payload.bytes(),
            (Err(e), Err(f)) => e == f,
            _ => false,
        },
{
    let h = match header {
        None => return Err(ClassificationError::Header(GitHubEventHeaderError::MissingHeader)),
        Some(h) => h,
    };
    if !header_value_is_text(h) {
        return Err(ClassificationError::Header(GitHubEventHeaderError::InvalidValue));
    }
    match parse_webhook_event(h, payload.as_bytes()) {
        None => Err(ClassificationError::EventPayloadUnparsable),
        Some(refs) => Ok(
            EventEnvelope {
                kind: classify_kind(h),
                installation_ref: refs.0,
                repository_ref: refs.1,
                sender: refs.2,
                raw: payload,
            },
        ),
    }
}

} // verus!
