use vstd::prelude::*;

use crate::signature::{SignatureAlgorithm, SignatureHeaderValue};
use orion::hazardous::mac::hmac::sha256::{HmacSha256, SecretKey};

verus! {

/// The HMAC-SHA256 tag of `message` under `key`, or `None` where the MAC
/// cannot be keyed or computed.
pub uninterp spec fn hmac_sha256(key: Seq<u8>, message: Seq<u8>) -> Option<Seq<u8>>;

/// Relies on orion's `SecretKey::from_slice` and `HmacSha256::hmac`: keys the
/// MAC with `key` and returns the 32-byte tag of `message`, or nothing where
/// orion reports an error.
#[verifier::external_body]
fn compute_hmac_sha256(key: &[u8], message: &[u8]) -> (r: Option<Vec<u8>>)
    ensures
        match r {
            Some(t) => hmac_sha256(key@, message@) == Some(t@) && t@.len() == 32,
            None => hmac_sha256(key@, message@) is None,
        },
{
    let key = SecretKey::from_slice(key).ok()?;
    let tag = HmacSha256::hmac(&key, message).ok()?;
    Some(tag.unprotected_as_bytes().to_vec())
}

/// Compares two byte strings without stopping at the first difference:
/// for equal lengths every byte pair is looked at.
pub fn constant_time_eq(a: &[u8], b: &[u8]) -> (r: bool)
    ensures
        r == (a@ == b@),
{
    if a.len() != b.len() {
        return false;
    }
    let mut diff: u8 = 0;
    let mut i: usize = 0;
    while i < a.len()
        invariant
            i <= a@.len(),
            a@.len() == b@.len(),
            (diff == 0) == (forall|j: int| 0 <= j < i ==> a@[j] == b@[j]),
        decreases a@.len() - i,
    {
        let x = a[i];
        let y = b[i];
        let d = diff;
        let next = d | (x ^ y);
        assert((next == 0) == (d == 0 && x == y)) by (bit_vector)
            requires
                next == d | (x ^ y),
        ;
        diff = next;
        i += 1;
    }
    if diff == 0 {
        assert(a@ =~= b@);
        true
    } else {
        false
    }
}

/// The shared secret that deliveries are signed with.
pub struct WebhookSecret {
    key: Vec<u8>,
}

impl WebhookSecret {
    pub closed spec fn key(&self) -> Seq<u8> {
        self.key@
    }

    pub fn new(key: Vec<u8>) -> (r: WebhookSecret)
        ensures
            r.key() == key@,
    {
        WebhookSecret { key }
    }
}

/// Why a body's signature was not accepted.
#[derive(Debug, Clone, Copy, PartialEq, Eq, Structural)]
pub enum VerificationError {
    /// The header names an algorithm that is not checked.
    UnsupportedAlgorithm,
    /// The secret could not key the MAC.
    InvalidKeyMaterial,
    /// The digest differs from the body's tag.
    SignatureMismatch,
}

/// The outcome of comparing a claimed digest with a computed tag.
pub open spec fn tag_check(digest: Seq<u8>, tag: Option<Seq<u8>>) -> Result<(), VerificationError> {
    match tag {
        None => Err(VerificationError::InvalidKeyMaterial),
        Some(t) => if t == digest {
            Ok(())
        } else {
            Err(VerificationError::SignatureMismatch)
        },
    }
}

/// The outcome of checking a signature header against a body.
pub open spec fn signature_check(
    algorithm: SignatureAlgorithm,
    digest: Seq<u8>,
    key: Seq<u8>,
    body: Seq<u8>,
) -> Result<(), VerificationError> {
    if algorithm != SignatureAlgorithm::Sha256 {
        Err(VerificationError::UnsupportedAlgorithm)
    } else {
        tag_check(digest, hmac_sha256(key, body))
    }
}

/// Compares a claimed digest with a computed tag, if there is one.
pub fn check_tag(digest: &[u8], tag: Option<&[u8]>) -> (r: Result<(), VerificationError>)
    ensures
        r == tag_check(
            digest@,
            match tag {
                Some(t) => Some(t@),
                None => None,
            },
        ),
{
    match tag {
        None => Err(VerificationError::InvalidKeyMaterial),
        Some(t) => if constant_time_eq(t, digest) {
            Ok(())
        } else {
            Err(VerificationError::SignatureMismatch)
        },
    }
}

/// A body whose signature has been checked. Only `verify_signature`
/// makes one.
pub struct VerifiedPayload {
    bytes: Vec<u8>,
}

impl VerifiedPayload {
    pub closed spec fn bytes(&self) -> Seq<u8> {
        self.bytes@
    }

    pub fn as_bytes(&self) -> (r: &[u8])
        ensures
            r@ == self.bytes(),
    {
        self.bytes.as_slice()
    }
}

/// Checks that `signature` is the HMAC-SHA256 of `body` under the secret,
/// comparing in constant time; on success the body is marked verified.
pub fn verify_signature(signature: &SignatureHeaderValue, secret: &WebhookSecret, body: Vec<u8>) -> (r:
    Result<VerifiedPayload, VerificationError>)
    ensures
        match (r, signature_check(signature.algorithm, signature.digest@, secret.key(), body@)) {
            (Ok(p), Ok(())) => p.bytes() == body@,
            (Err(e), Err(f)) => e == f,
            _ => false,
        },
        signature.digest@.len() != 32 ==> r is Err,
{
    if signature.algorithm != SignatureAlgorithm::Sha256 {
        return Err(VerificationError::UnsupportedAlgorithm);
    }
    let tag = compute_hmac_sha256(secret.key.as_slice(), body.as_slice());
    let checked = match &tag {
        Some(t) => check_tag(signature.digest.as_slice(), Some(t.as_slice())),
        None => check_tag(signature.digest.as_slice(), None),
    };
    match checked {
        Ok(()) => Ok(VerifiedPayload { bytes: body }),
        Err(e) => Err(e),
    }
}

/// `s` with bit `bit` of byte `i` inverted.
pub open spec fn flip_bit(s: Seq<u8>, i: int, bit: u8) -> Seq<u8> {
    s.update(i, s[i] ^ (1u8 << bit))
}

/// The tag of a body under a usable key is accepted as its signature, and
/// the same tag with any single bit inverted is refused.
pub proof fn lemma_signature_round_trip(key: Seq<u8>, body: Seq<u8>, i: int, bit: u8)
    requires
        hmac_sha256(key, body) is Some,
        0 <= i < hmac_sha256(key, body)->Some_0.len(),
        bit < 8,
    ensures
        signature_check(SignatureAlgorithm::Sha256, hmac_sha256(key, body)->Some_0, key, body)
            == Ok::<(), VerificationError>(()),
        signature_check(
            SignatureAlgorithm::Sha256,
            flip_bit(hmac_sha256(key, body)->Some_0, i, bit),
            key,
            body,
        ) == Err::<(), VerificationError>(VerificationError::SignatureMismatch),
{
    let t = hmac_sha256(key, body)->Some_0;
    let x = t[i];
    assert(x ^ (1u8 << bit) != x) by (bit_vector)
        requires
            bit < 8,
    ;
    assert(flip_bit(t, i, bit)[i] != t[i]);
}

} // verus!
