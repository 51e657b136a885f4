//! Unsigned decimal text, as carried by the request parameters.

use vstd::prelude::*;

verus! {

/// An ASCII decimal digit.
pub open spec fn is_digit(b: u8) -> bool {
    48 <= b <= 57
}

/// Every byte of `s` is a decimal digit.
pub open spec fn all_digits(s: Seq<u8>) -> bool {
    forall|i: int| 0 <= i < s.len() ==> is_digit(#[trigger] s[i])
}

/// The number that a run of digits writes, most significant digit first.
pub open spec fn digits_value(s: Seq<u8>) -> nat
    decreases s.len(),
{
    if s.len() == 0 {
        0
    } else {
        10 * digits_value(s.drop_last()) + (s.last() - 48) as nat
    }
}

/// The text without one leading plus sign, if it has one.
pub open spec fn unsigned_part(s: Seq<u8>) -> Seq<u8> {
    if s.len() > 0 && s[0] == 43 {
        s.skip(1)
    } else {
        s
    }
}

/// The value of a decimal text that is at most `max`: an optional plus sign,
/// then one or more digits and nothing else. Leading zeros are allowed.
pub open spec fn decimal_value(s: Seq<u8>, max: nat) -> Option<nat> {
    let d = unsigned_part(s);
    if d.len() > 0 && all_digits(d) && digits_value(d) <= max {
        Some(digits_value(d))
    } else {
        None
    }
}

/// A longer run of digits never writes a smaller number than its prefix.
pub proof fn lemma_digits_value_grows(s: Seq<u8>, k: int)
    requires
        all_digits(s),
        0 <= k <= s.len(),
    ensures
        digits_value(s.take(k)) <= digits_value(s),
    decreases s.len(),
{
    if k < s.len() {
        assert(s.drop_last().take(k) == s.take(k));
        lemma_digits_value_grows(s.drop_last(), k);
    } else {
        assert(s.take(k) == s);
    }
}

/// Reads an unsigned decimal number no larger than `max`.
pub fn parse_decimal(text: &[u8], max: u32) -> (value: Option<u32>)
    ensures
        match decimal_value(text@, max as nat) {
            Some(v) => value == Some(v as u32),
            None => value.is_none(),
        },
{
    let n: usize = text.len();
    let start: usize = if n > 0 && text[0] == 43 { 1 } else { 0 };
    if start == n {
        return None;
    }
    let ghost digits = unsigned_part(text@);
    let mut acc: u64 = 0;
    let mut i: usize = start;
    while i < n
        invariant
            n == text@.len(),
            start <= i <= n,
            digits == unsigned_part(text@),
            digits == text@.skip(start as int),
            all_digits(digits.take(i - start)),
            acc == digits_value(digits.take(i - start)),
            acc <= max,
        decreases n - i,
    {
        let b: u8 = text[i];
        let ghost before = digits.take(i - start);
        let ghost after = digits.take(i + 1 - start);
        proof {
            assert(after.drop_last() == before);
            assert(after.last() == b);
            assert(digits[i - start] == b);
        }
        if b < 48 || b > 57 {
            proof {
                assert(!is_digit(digits[i - start]));
            }
            return None;
        }
        let next: u64 = acc * 10 + (b - 48) as u64;
        assert(next == digits_value(after));
        if next > max as u64 {
            proof {
                if all_digits(digits) {
                    lemma_digits_value_grows(digits, i + 1 - start);
                }
            }
            return None;
        }
        proof {
            assert forall|j: int| 0 <= j < after.len() implies is_digit(#[trigger] after[j]) by {
                if j < before.len() {
                    assert(after[j] == before[j]);
                }
            }
        }
        acc = next;
        i = i + 1;
    }
    proof {
        assert(digits.take(n - start) == digits);
    }
    Some(acc as u32)
}

} // verus!
