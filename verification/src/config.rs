//! The values of the configuration that the pipeline reads: durations such
//! as a poll interval, written as a decimal number and a unit.

use vstd::prelude::*;
use vstd::string::StringSliceAdditionalSpecFns;

verus! {

/// The byte is an ASCII digit.
pub open spec fn is_digit(b: u8) -> bool {
    48 <= b <= 57
}

/// Every byte is an ASCII digit.
pub open spec fn all_digits(s: Seq<u8>) -> bool {
    forall|i: int| 0 <= i < s.len() ==> is_digit(#[trigger] s[i])
}

/// The number that a sequence of ASCII digits denotes in base ten.
pub open spec fn decimal_value(s: Seq<u8>) -> nat
    decreases s.len(),
{
    if s.len() == 0 {
        0
    } else {
        decimal_value(s.drop_last()) * 10 + (s.last() - 48) as nat
    }
}

/// The duration in milliseconds that `text` denotes: one or more digits
/// followed by `ms` for milliseconds or by `s` for seconds, such as `50ms`
/// or `1s`. Anything else, and a duration of more milliseconds than 64 bits
/// hold, denotes nothing.
pub open spec fn duration_ms(text: Seq<u8>) -> Option<u64> {
    let n = text.len() as int;
    if n >= 3 && text[n - 2] == 109 && text[n - 1] == 115 && all_digits(text.take(n - 2)) {
        let v = decimal_value(text.take(n - 2));
        if v <= u64::MAX {
            Some(v as u64)
        } else {
            None
        }
    } else if n >= 2 && text[n - 1] == 115 && all_digits(text.take(n - 1)) {
        let v = decimal_value(text.take(n - 1)) * 1000;
        if v <= u64::MAX {
            Some(v as u64)
        } else {
            None
        }
    } else {
        None
    }
}

/// A longer run of digits denotes at least as much as any of its prefixes.
pub proof fn lemma_decimal_value_grows(s: Seq<u8>, k: int)
    requires
        all_digits(s),
        0 <= k <= s.len(),
    ensures
        decimal_value(s.take(k)) <= decimal_value(s),
    decreases s.len(),
{
    if k == s.len() {
        assert(s.take(k) =~= s);
    } else {
        lemma_decimal_value_grows(s.drop_last(), k);
        assert(s.drop_last().take(k) =~= s.take(k));
    }
}

/// Reads a duration such as `50ms` or `1s` and returns it in milliseconds.
pub fn parse_duration_ms(text: &str) -> (r: Option<u64>)
    ensures
        r == duration_ms(text.spec_bytes()),
{
    let bytes = text.as_bytes();
    let n: usize = bytes.len();
    if n < 2 || bytes[n - 1] != 115 {
        return None;
    }
    let millis: bool = bytes[n - 2] == 109;
    let end: usize = if millis {
        n - 2
    } else {
        n - 1
    };
    let ghost digits = bytes@.take(end as int);
    proof {
        if millis {
            assert(!is_digit(bytes@.take(n - 1)[n - 2]));
        }
    }
    if end == 0 {
        return None;
    }
    let mut value: u64 = 0;
    let mut i: usize = 0;
    while i < end
        invariant
            i <= end,
            n == bytes@.len(),
            n >= 2,
            bytes@ == text.spec_bytes(),
            bytes@[n - 1] == 115,
            millis == (bytes@[n - 2] == 109),
            end == if millis {
                n - 2
            } else {
                n - 1
            },
            digits == bytes@.take(end as int),
            all_digits(digits.take(i as int)),
            value == decimal_value(digits.take(i as int)),
        decreases end - i,
    {
        let b: u8 = bytes[i];
        if b < 48 || b > 57 {
            proof {
                assert(!is_digit(digits[i as int]));
                assert(!is_digit(bytes@.take(n - 1)[i as int]));
            }
            return None;
        }
        let d: u64 = (b - 48) as u64;
        proof {
            assert(digits.take(i + 1).drop_last() =~= digits.take(i as int));
            assert(digits.take(i + 1).last() == b);
        }
        if value > (u64::MAX - d) / 10 {
            proof {
                if all_digits(digits) {
                    lemma_decimal_value_grows(digits, i + 1);
                }
                if !millis && all_digits(bytes@.take(n - 1)) {
                    assert(bytes@.take(n - 1) =~= digits);
                }
            }
            return None;
        }
        value = value * 10 + d;
        i += 1;
    }
    proof {
        assert(digits.take(end as int) =~= digits);
    }
    if millis {
        Some(value)
    } else if value > u64::MAX / 1000 {
        None
    } else {
        Some(value * 1000)
    }
}

} // verus!
