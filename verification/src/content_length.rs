//! The size of a body where it is known before the body is read.
//!
//! A `content-length` header counts when its value is an unsigned decimal
//! number that fits in 64 bits: an optional `+`, then one digit or more, and
//! nothing else.

use vstd::prelude::*;

verus! {

/// Whether `b` is an ASCII decimal digit.
pub open spec fn is_digit(b: u8) -> bool {
    48 <= b <= 57
}

/// Whether every byte of `bytes` is an ASCII decimal digit.
pub open spec fn all_digits(bytes: Seq<u8>) -> bool {
    forall|i: int| 0 <= i < bytes.len() ==> is_digit(#[trigger] bytes[i])
}

/// The number that the decimal digits `digits` write.
pub open spec fn digits_value(digits: Seq<u8>) -> nat
    decreases digits.len(),
{
    if digits.len() == 0 {
        0
    } else {
        digits_value(digits.drop_last()) * 10 + (digits.last() - 48) as nat
    }
}

/// `bytes` without a leading `+`.
pub open spec fn without_sign(bytes: Seq<u8>) -> Seq<u8> {
    if bytes.len() > 0 && bytes[0] == 43 {
        bytes.skip(1)
    } else {
        bytes
    }
}

/// The number that `bytes` write in decimal, where they write one that fits
/// in 64 bits.
pub open spec fn parse_decimal(bytes: Seq<u8>) -> Option<u64> {
    let digits = without_sign(bytes);
    if digits.len() > 0 && all_digits(digits) && digits_value(digits) <= u64::MAX {
        Some(digits_value(digits) as u64)
    } else {
        None
    }
}

/// The size of a body that is known ahead of time: the exact size that the
/// body itself gives, and where it gives none, the number in the response's
/// `content-length` header.
pub open spec fn spec_exact_body_size(size_hint: Option<u64>, content_length: Option<Seq<u8>>) -> Option<u64> {
    match size_hint {
        Some(size) => Some(size),
        None => match content_length {
            Some(bytes) => parse_decimal(bytes),
            None => None,
        },
    }
}

/// A number does not shrink when digits are written after it.
proof fn lemma_value_grows(digits: Seq<u8>, n: int)
    requires
        0 <= n <= digits.len(),
        all_digits(digits),
    ensures
        digits_value(digits.take(n)) <= digits_value(digits),
    decreases digits.len() - n,
{
    if n < digits.len() {
        lemma_value_grows(digits, n + 1);
        assert(digits.take(n + 1).drop_last() =~= digits.take(n));
    } else {
        assert(digits.take(n) =~= digits);
    }
}

/// Reads the unsigned decimal number that `bytes` write.
pub fn parse_content_length(bytes: &[u8]) -> (size: Option<u64>)
    ensures
        size == parse_decimal(bytes@),
{
    let start: usize = if bytes.len() > 0 && bytes[0] == 43 {
        1
    } else {
        0
    };
    let ghost digits = without_sign(bytes@);
    if start == bytes.len() {
        return None;
    }
    let mut value: u64 = 0;
    let mut i: usize = start;
    while i < bytes.len()
        invariant
            start <= i <= bytes.len(),
            digits == without_sign(bytes@),
            digits == bytes@.skip(start as int),
            digits.len() > 0,
            all_digits(digits.take(i - start)),
            value == digits_value(digits.take(i - start)),
        decreases bytes.len() - i,
    {
        let b = bytes[i];
        assert(b == digits[i - start]);
        if b < 48 || b > 57 {
            assert(!is_digit(digits[i - start]));
            assert(!all_digits(digits));
            return None;
        }
        let d: u64 = (b - 48) as u64;
        proof {
            assert(digits.take(i - start + 1).drop_last() =~= digits.take(i - start));
            assert forall|k: int| 0 <= k < i - start + 1 implies is_digit(
                #[trigger] digits.take(i - start + 1)[k],
            ) by {
                if k < i - start {
                    assert(digits.take(i - start)[k] == digits[k]);
                }
            }
        }
        if value > (u64::MAX - d) / 10 {
            proof {
                assert(digits_value(digits.take(i - start + 1)) == value * 10 + d);
                assert(value * 10 + d > u64::MAX);
                if all_digits(digits) {
                    lemma_value_grows(digits, i - start + 1);
                }
            }
            return None;
        }
        value = value * 10 + d;
        i += 1;
    }
    proof {
        assert(digits.take(i - start) =~= digits);
    }
    Some(value)
}

/// The size of a body that is known ahead of time: `size_hint`, the exact
/// size that the body itself gives, and where it gives none, the number in
/// `content_length`, the bytes of the response's header of that name.
pub fn exact_body_size(size_hint: Option<u64>, content_length: &Option<Vec<u8>>) -> (size: Option<u64>)
    ensures
        size == spec_exact_body_size(
            size_hint,
            match *content_length {
                Some(bytes) => Some(bytes@),
                None => None,
            },
        ),
{
    match size_hint {
        Some(size) => Some(size),
        None => match content_length {
            Some(bytes) => parse_content_length(bytes.as_slice()),
            None => None,
        },
    }
}

} // verus!
