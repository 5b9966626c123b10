use vstd::prelude::*;

use crate::header::{
    bytes_of, contains_byte, find_byte, first_index, header_value_is_text, is_text_value,
};

verus! {

/// A hexadecimal digit, in either case.
pub open spec fn is_hex_digit(b: u8) -> bool {
    (48 <= b && b <= 57) || (65 <= b && b <= 70) || (97 <= b && b <= 102)
}

pub open spec fn hex_digit_value(b: u8) -> nat {
    if b <= 57 {
        (b - 48) as nat
    } else if b <= 70 {
        (b - 55) as nat
    } else {
        (b - 87) as nat
    }
}

/// Whether `s` is an even-length run of hexadecimal digits.
pub open spec fn is_hex(s: Seq<u8>) -> bool {
    s.len() % 2 == 0 && forall|i: int| 0 <= i < s.len() ==> is_hex_digit(#[trigger] s[i])
}

/// The bytes that a hexadecimal string spells, two digits per byte,
/// the high nibble first.
pub open spec fn hex_decoded(s: Seq<u8>) -> Seq<u8> {
    Seq::new(
        s.len() / 2,
        |i: int| (hex_digit_value(s[2 * i]) * 16 + hex_digit_value(s[2 * i + 1])) as u8,
    )
}

/// Relies on hex::decode: an even number of digits from `0-9a-fA-F` decodes
/// to one byte per pair, high nibble first; any other input is an error.
#[verifier::external_body]
fn decode_hex(s: &[u8]) -> (r: Option<Vec<u8>>)
    ensures
        match r {
            Some(v) => is_hex(s@) && v@ == hex_decoded(s@),
            None => !is_hex(s@),
        },
{
    hex::decode(s).ok()
}

/// The signature algorithms a delivery may name.
#[derive(Debug, Clone, Copy, PartialEq, Eq, Structural)]
pub enum SignatureAlgorithm {
    Sha256,
    Unsupported,
}

/// The tag `sha256`.
pub open spec fn sha256_tag() -> Seq<u8> {
    seq![115u8, 104u8, 97u8, 50u8, 53u8, 54u8]
}

pub open spec fn algorithm_of(tag: Seq<u8>) -> SignatureAlgorithm {
    if tag == sha256_tag() {
        SignatureAlgorithm::Sha256
    } else {
        SignatureAlgorithm::Unsupported
    }
}

/// Reads the algorithm tag on the left of a signature header.
pub fn parse_algorithm(tag: &[u8]) -> (r: SignatureAlgorithm)
    ensures
        r == algorithm_of(tag@),
{
    if tag.len() == 6 && tag[0] == 115 && tag[1] == 104 && tag[2] == 97 && tag[3] == 50
        && tag[4] == 53 && tag[5] == 54 {
        assert(tag@ =~= sha256_tag());
        SignatureAlgorithm::Sha256
    } else {
        SignatureAlgorithm::Unsupported
    }
}

/// A decoded signature header: the algorithm it names and the digest.
#[derive(Debug)]
pub struct SignatureHeaderValue {
    pub algorithm: SignatureAlgorithm,
    pub digest: Vec<u8>,
}

/// Why a signature header was refused.
#[derive(Debug, Clone, Copy, PartialEq, Eq, Structural)]
pub enum SignatureHeaderError {
    /// The value holds bytes that are not visible ASCII.
    InvalidValue,
    /// The value has no `=` between algorithm and digest.
    NotAPair,
    /// The algorithm on the left is not one this library checks.
    UnsupportedAlgorithm,
    /// The digest on the right is not hexadecimal.
    NotHex,
    /// The header is absent.
    MissingHeader,
}

/// The byte `=`.
pub open spec fn delimiter() -> u8 {
    61
}

/// What a signature header value decodes to: the digest of a `sha256=<hex>`
/// value, or the first reason it is refused.
pub open spec fn signature_header(raw: Option<Seq<u8>>) -> Result<Seq<u8>, SignatureHeaderError> {
    match raw {
        None => Err(SignatureHeaderError::MissingHeader),
        Some(s) => if !is_text_value(s) {
            Err(SignatureHeaderError::InvalidValue)
        } else if !contains_byte(s, delimiter()) {
            Err(SignatureHeaderError::NotAPair)
        } else {
            let i = first_index(s, delimiter());
            let tag = s.subrange(0, i);
            let digits = s.subrange(i + 1, s.len() as int);
            if algorithm_of(tag) != SignatureAlgorithm::Sha256 {
                Err(SignatureHeaderError::UnsupportedAlgorithm)
            } else if !is_hex(digits) {
                Err(SignatureHeaderError::NotHex)
            } else {
                Ok(hex_decoded(digits))
            }
        },
    }
}

/// A signature taken from the `x-hub-signature-256` header.
pub struct ExtractSignatureHeader(pub SignatureHeaderValue);

impl ExtractSignatureHeader {
    /// Decodes a raw `x-hub-signature-256` value of the form `sha256=<hex>`.
    pub fn from_header_value(raw: Option<&[u8]>) -> (r: Result<ExtractSignatureHeader, SignatureHeaderError>)
        ensures
            match (r, signature_header(bytes_of(raw))) {
                (Ok(h), Ok(d)) => h.0.digest@ == d && h.0.algorithm == SignatureAlgorithm::Sha256,
                (Err(e), Err(f)) => e == f,
                _ => false,
            },
    {
        let s = match raw {
            None => return Err(SignatureHeaderError::MissingHeader),
            Some(s) => s,
        };
        if !header_value_is_text(s) {
            return Err(SignatureHeaderError::InvalidValue);
        }
        let i = match find_byte(s, 61) {
            None => return Err(SignatureHeaderError::NotAPair),
            Some(i) => i,
        };
        let n = s.len();
        assert(i < n);
        let (tag, _) = s.split_at(i);
        let (_, digits) = s.split_at(i + 1);
        if parse_algorithm(tag) != SignatureAlgorithm::Sha256 {
            return Err(SignatureHeaderError::UnsupportedAlgorithm);
        }
        match decode_hex(digits) {
            None => Err(SignatureHeaderError::NotHex),
            Some(digest) => Ok(
                ExtractSignatureHeader(
                    SignatureHeaderValue { algorithm: SignatureAlgorithm::Sha256, digest },
                ),
            ),
        }
    }
}

} // verus!
