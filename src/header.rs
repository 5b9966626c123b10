use vstd::prelude::*;

verus! {

/// A byte that may appear in a header value that is read as text:
/// visible ASCII or a horizontal tab.
pub open spec fn is_visible_ascii(b: u8) -> bool {
    (32 <= b && b < 127) || b == 9
}

/// Whether every byte of a header value is visible ASCII.
pub open spec fn is_text_value(s: Seq<u8>) -> bool {
    forall|i: int| 0 <= i < s.len() ==> is_visible_ascii(#[trigger] s[i])
}

/// Checks that a raw header value can be read as text.
pub fn header_value_is_text(value: &[u8]) -> (r: bool)
    ensures
        r == is_text_value(value@),
{
    let mut i: usize = 0;
    while i < value.len()
        invariant
            i <= value@.len(),
            forall|j: int| 0 <= j < i ==> is_visible_ascii(#[trigger] value@[j]),
        decreases value@.len() - i,
    {
        let b = value[i];
        if !((32 <= b && b < 127) || b == 9) {
            return false;
        }
        i += 1;
    }
    true
}

pub open spec fn is_decimal_digit(b: u8) -> bool {
    48 <= b && b <= 57
}

/// The value of a string of decimal digits, most significant first.
pub open spec fn decimal_value(s: Seq<u8>) -> nat
    decreases s.len(),
{
    if s.len() == 0 {
        0
    } else {
        decimal_value(s.drop_last()) * 10 + (s.last() - 48) as nat
    }
}

/// The bytes of a header value that may be absent.
pub open spec fn bytes_of(raw: Option<&[u8]>) -> Option<Seq<u8>> {
    match raw {
        Some(s) => Some(s@),
        None => None,
    }
}

/// Whether `s` is a non-empty run of decimal digits.
pub open spec fn is_decimal(s: Seq<u8>) -> bool {
    s.len() > 0 && forall|i: int| 0 <= i < s.len() ==> is_decimal_digit(#[trigger] s[i])
}

/// Why a declared content length could not be used.
#[derive(Debug, Clone, Copy, PartialEq, Eq, Structural)]
pub enum ContentLengthError {
    /// The header is absent.
    MissingContentLength,
    /// The header is not a decimal number that fits the machine's sizes.
    NonNumericContentLength,
}

/// The length that a `Content-Length` value declares, if it is a usable one.
pub open spec fn declared_length(raw: Option<Seq<u8>>) -> Result<nat, ContentLengthError> {
    match raw {
        None => Err(ContentLengthError::MissingContentLength),
        Some(s) => if is_decimal(s) && decimal_value(s) <= usize::MAX {
            Ok(decimal_value(s))
        } else {
            Err(ContentLengthError::NonNumericContentLength)
        },
    }
}

/// Parses a `Content-Length` header value as a decimal byte count.
pub fn parse_content_length(raw: Option<&[u8]>) -> (r: Result<usize, ContentLengthError>)
    ensures
        match (r, declared_length(bytes_of(raw))) {
            (Ok(n), Ok(m)) => n as nat == m,
            (Err(e), Err(f)) => e == f,
            _ => false,
        },
{
    let s = match raw {
        None => return Err(ContentLengthError::MissingContentLength),
        Some(s) => s,
    };
    if s.len() == 0 {
        return Err(ContentLengthError::NonNumericContentLength);
    }
    let mut k: usize = 0;
    while k < s.len()
        invariant
            k <= s@.len(),
            bytes_of(raw) == Some(s@),
            forall|j: int| 0 <= j < k ==> is_decimal_digit(#[trigger] s@[j]),
        decreases s@.len() - k,
    {
        let b = s[k];
        if !(48 <= b && b <= 57) {
            assert(!is_decimal_digit(s@[k as int]));
            return Err(ContentLengthError::NonNumericContentLength);
        }
        k += 1;
    }
    let mut value: usize = 0;
    let mut i: usize = 0;
    while i < s.len()
        invariant
            i <= s@.len(),
            bytes_of(raw) == Some(s@),
            is_decimal(s@),
            value as nat == decimal_value(s@.take(i as int)),
        decreases s@.len() - i,
    {
        let b = s[i];
        assert(is_decimal_digit(s@[i as int]));
        assert(s@.take(i + 1).drop_last() =~= s@.take(i as int));
        let digit = (b - 48) as usize;
        if value > (usize::MAX - digit) / 10 {
            assert(value * 10 + digit > usize::MAX) by (nonlinear_arith)
                requires
                    value > (usize::MAX - digit) / 10,
                    digit <= 9,
            ;
            proof {
                lemma_decimal_prefix_bound(s@, i as int + 1);
            }
            return Err(ContentLengthError::NonNumericContentLength);
        }
        assert(value * 10 + digit <= usize::MAX) by (nonlinear_arith)
            requires
                value <= (usize::MAX - digit) / 10,
                digit <= 9,
        ;
        value = value * 10 + digit;
        i += 1;
    }
    assert(s@.take(s@.len() as int) =~= s@);
    Ok(value)
}

/// A longer run of digits never has a smaller value than its prefix.
proof fn lemma_decimal_prefix_bound(s: Seq<u8>, k: int)
    requires
        0 <= k <= s.len(),
        forall|j: int| 0 <= j < s.len() ==> is_decimal_digit(#[trigger] s[j]),
    ensures
        decimal_value(s.take(k)) <= decimal_value(s),
    decreases s.len() - k,
{
    if k < s.len() {
        lemma_decimal_prefix_bound(s, k + 1);
        assert(s.take(k + 1).drop_last() =~= s.take(k));
    } else {
        assert(s.take(k) =~= s);
    }
}

/// `i` is the position of the first `b` in `s`.
pub open spec fn is_first_index(s: Seq<u8>, b: u8, i: int) -> bool {
    0 <= i < s.len() && s[i] == b && forall|j: int| 0 <= j < i ==> #[trigger] s[j] != b
}

pub open spec fn contains_byte(s: Seq<u8>, b: u8) -> bool {
    exists|i: int| 0 <= i < s.len() && #[trigger] s[i] == b
}

/// The position of the first `b` in `s`, where `s` holds one.
pub open spec fn first_index(s: Seq<u8>, b: u8) -> int {
    choose|i: int| is_first_index(s, b, i)
}

/// Finds the first `b` in `s`.
pub fn find_byte(s: &[u8], b: u8) -> (r: Option<usize>)
    ensures
        match r {
            Some(i) => is_first_index(s@, b, i as int) && first_index(s@, b) == i,
            None => !contains_byte(s@, b),
        },
{
    let mut i: usize = 0;
    while i < s.len()
        invariant
            i <= s@.len(),
            forall|j: int| 0 <= j < i ==> #[trigger] s@[j] != b,
        decreases s@.len() - i,
    {
        if s[i] == b {
            proof {
                let k = first_index(s@, b);
                assert(is_first_index(s@, b, i as int));
                assert(is_first_index(s@, b, k));
                if k < i {
                    assert(s@[k] != b);
                } else if i < k {
                    assert(s@[i as int] != b);
                }
            }
            return Some(i);
        }
        i += 1;
    }
    None
}

} // verus!
