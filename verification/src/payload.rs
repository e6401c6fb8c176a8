//! Interpreting the payload that the remote notification call returns.
//!
//! A notified receiver answers with a JSON string whose characters spell the
//! amount it declines to keep, in decimal. The JSON layer is handled by an
//! outside parser; the decimal reading is verified here, against an exact
//! specification.

use vstd::prelude::*;

verus! {

/// What `serde_json::from_slice::<String>` decodes from `bytes`: the decoded
/// string's bytes, or `None` when `bytes` is not one well-formed JSON string.
pub uninterp spec fn json_string_bytes_of(bytes: Seq<u8>) -> Option<Seq<u8>>;

/// Relies on `serde_json::from_slice::<String>`: decodes exactly one JSON
/// string from the bytes; the result depends on the bytes alone.
#[verifier::external_body]
fn decode_json_string(bytes: &[u8]) -> (r: Option<Vec<u8>>)
    ensures
        (match r {
            Some(s) => json_string_bytes_of(bytes@) == Some(s@),
            None => json_string_bytes_of(bytes@) is None,
        }),
{
    serde_json::from_slice::<String>(bytes).ok().map(|s| s.into_bytes())
}

/// Whether `b` is an ASCII decimal digit.
pub open spec fn is_ascii_digit(b: u8) -> bool {
    0x30 <= b <= 0x39
}

/// Whether every byte of `s` is an ASCII decimal digit.
pub open spec fn all_ascii_digits(s: Seq<u8>) -> bool {
    forall|i: int| 0 <= i < s.len() ==> is_ascii_digit(#[trigger] s[i])
}

/// The number the digit bytes of `s` spell in decimal, most significant
/// first.
pub open spec fn digits_value(s: Seq<u8>) -> int
    decreases s.len(),
{
    if s.len() == 0 {
        0
    } else {
        digits_value(s.drop_last()) * 10 + (s.last() - 0x30)
    }
}

/// The unsigned 128-bit number that `s` spells: an optional leading `+`,
/// then one or more decimal digits, whose value fits in 128 bits. `None`
/// for anything else.
pub open spec fn spec_parse_u128(s: Seq<u8>) -> Option<u128> {
    let digits = if s.len() > 0 && s[0] == 0x2b { s.drop_first() } else { s };
    if digits.len() > 0 && all_ascii_digits(digits) && digits_value(digits) <= u128::MAX {
        Some(digits_value(digits) as u128)
    } else {
        None
    }
}

proof fn lemma_digits_value_nonneg(s: Seq<u8>)
    requires
        all_ascii_digits(s),
    ensures
        digits_value(s) >= 0,
    decreases s.len(),
{
    if s.len() > 0 {
        assert(all_ascii_digits(s.drop_last()));
        lemma_digits_value_nonneg(s.drop_last());
    }
}

proof fn lemma_digits_value_prefix_le(s: Seq<u8>, n: int)
    requires
        all_ascii_digits(s),
        0 <= n <= s.len(),
    ensures
        digits_value(s.subrange(0, n)) <= digits_value(s),
    decreases s.len() - n,
{
    if n == s.len() {
        assert(s.subrange(0, n) =~= s);
    } else {
        lemma_digits_value_prefix_le(s, n + 1);
        let t = s.subrange(0, n + 1);
        assert(t.drop_last() =~= s.subrange(0, n));
        assert(all_ascii_digits(s.subrange(0, n)));
        lemma_digits_value_nonneg(s.subrange(0, n));
    }
}

/// Read an unsigned 128-bit number written in decimal, as an optional
/// leading `+` followed by one or more digits.
pub fn parse_u128(s: &[u8]) -> (r: Option<u128>)
    ensures
        r == spec_parse_u128(s@),
{
    let len: usize = s.len();
    let start: usize = if len > 0 && s[0] == 0x2b { 1 } else { 0 };
    let ghost digits = if s@.len() > 0 && s@[0] == 0x2b { s@.drop_first() } else { s@ };
    proof {
        assert(digits =~= s@.subrange(start as int, len as int));
    }
    if start >= len {
        return None;
    }
    let mut value: u128 = 0;
    let mut i: usize = start;
    while i < len
        invariant
            start <= i <= len == s@.len(),
            start < len,
            digits == (if s@.len() > 0 && s@[0] == 0x2b { s@.drop_first() } else { s@ }),
            digits =~= s@.subrange(start as int, len as int),
            all_ascii_digits(s@.subrange(start as int, i as int)),
            value == digits_value(s@.subrange(start as int, i as int)),
        decreases len - i,
    {
        let b: u8 = s[i];
        let ghost prefix = s@.subrange(start as int, i as int);
        let ghost step = s@.subrange(start as int, i + 1);
        proof {
            assert(step.drop_last() =~= prefix);
            assert(step.last() == s@[i as int]);
            assert(digits[i - start] == s@[i as int]);
        }
        if b < 0x30 || b > 0x39 {
            proof {
                assert(!is_ascii_digit(digits[i - start]));
            }
            return None;
        }
        let d: u128 = (b - 0x30) as u128;
        let next: Option<u128> = match value.checked_mul(10) {
            Some(v10) => v10.checked_add(d),
            None => None,
        };
        match next {
            Some(v) => {
                value = v;
            },
            None => {
                proof {
                    assert(all_ascii_digits(step));
                    assert(digits_value(step) == value * 10 + d);
                    assert(digits_value(step) > u128::MAX);
                    if all_ascii_digits(digits) {
                        assert(step =~= digits.subrange(0, i + 1 - start));
                        lemma_digits_value_prefix_le(digits, i + 1 - start);
                    }
                }
                return None;
            },
        }
        i = i + 1;
    }
    proof {
        assert(s@.subrange(start as int, len as int) =~= digits);
    }
    Some(value)
}

/// What a successful remote notification declared unused: the payload read
/// as one JSON string spelling an unsigned 128-bit decimal number, or `None`
/// when the payload has any other shape.
pub open spec fn declared_unused_of(bytes: Seq<u8>) -> Option<u128> {
    match json_string_bytes_of(bytes) {
        Some(s) => spec_parse_u128(s),
        None => None,
    }
}

/// Read the amount a remote notification payload declares unused, or `None`
/// when the payload is malformed.
pub fn parse_unused_amount(bytes: &[u8]) -> (r: Option<u128>)
    ensures
        r == declared_unused_of(bytes@),
{
    match decode_json_string(bytes) {
        Some(s) => parse_u128(s.as_slice()),
        None => None,
    }
}

} // verus!
