//! Decimal parsing of 32-bit integers, matching what `str::parse::<i32>`
//! accepts: an optional `+` or `-` sign followed by at least one ASCII
//! digit, nothing else, and a value that fits the type.

use vstd::prelude::*;

verus! {

/// An ASCII decimal digit.
pub open spec fn is_digit_char(c: char) -> bool {
    48 <= c as u32 && c as u32 <= 57
}

/// Whether every character of `s` is an ASCII decimal digit.
pub open spec fn all_digits(s: Seq<char>) -> bool {
    forall|i: int| 0 <= i < s.len() ==> is_digit_char(#[trigger] s[i])
}

/// The numeric value of a run of decimal digits, most significant first.
pub open spec fn digits_value(s: Seq<char>) -> int
    decreases s.len(),
{
    if s.len() == 0 {
        0
    } else {
        digits_value(s.drop_last()) * 10 + (s.last() as u32 - 48)
    }
}

/// The magnitude of an all-digit run is never negative.
pub proof fn lemma_digits_value_nonneg(s: Seq<char>)
    requires
        all_digits(s),
    ensures
        digits_value(s) >= 0,
    decreases s.len(),
{
    if s.len() > 0 {
        assert(all_digits(s.drop_last()));
        lemma_digits_value_nonneg(s.drop_last());
    }
}

/// Extending an all-digit run only grows its value.
pub proof fn lemma_digits_value_prefix_le(s: Seq<char>, k: int)
    requires
        all_digits(s),
        0 <= k <= s.len(),
    ensures
        digits_value(s.take(k)) <= digits_value(s),
    decreases s.len() - k,
{
    if k == s.len() {
        assert(s.take(k) =~= s);
    } else {
        assert(s.take(k + 1).drop_last() =~= s.take(k));
        assert(s.take(k + 1).last() == s[k]);
        assert(all_digits(s.take(k)));
        lemma_digits_value_nonneg(s.take(k));
        assert(digits_value(s.take(k)) <= digits_value(s.take(k + 1)));
        lemma_digits_value_prefix_le(s, k + 1);
    }
}

/// What `str::parse::<i32>` yields on `s`: `None` unless the whole string
/// is an optional sign followed by at least one digit and the value fits.
pub open spec fn parse_i32_spec(s: Seq<char>) -> Option<i32> {
    if s.len() == 0 {
        None
    } else if s[0] == '+' || s[0] == '-' {
        let digits = s.subrange(1, s.len() as int);
        if digits.len() == 0 || !all_digits(digits) {
            None
        } else if s[0] == '-' {
            if digits_value(digits) <= 0x8000_0000 {
                Some((-digits_value(digits)) as i32)
            } else {
                None
            }
        } else {
            if digits_value(digits) <= 0x7FFF_FFFF {
                Some(digits_value(digits) as i32)
            } else {
                None
            }
        }
    } else {
        if !all_digits(s) {
            None
        } else if digits_value(s) <= 0x7FFF_FFFF {
            Some(digits_value(s) as i32)
        } else {
            None
        }
    }
}

/// Parses a 32-bit integer the way `str::parse::<i32>` does.
pub fn parse_i32(s: &str) -> (r: Option<i32>)
    ensures
        r == parse_i32_spec(s@),
{
    let n = s.unicode_len();
    if n == 0 {
        return None;
    }
    let first = s.get_char(0);
    let neg = first == '-';
    let has_sign = neg || first == '+';
    let start: usize = if has_sign {
        1
    } else {
        0
    };
    let ghost digits = s@.subrange(start as int, n as int);
    proof {
        if !has_sign {
            assert(digits =~= s@);
        }
    }
    if start == n {
        return None;
    }
    let mut i: usize = start;
    let mut mag: u64 = 0;
    proof {
        assert(digits.take(0) =~= Seq::<char>::empty());
    }
    while i < n
        invariant
            start <= i <= n,
            n == s@.len(),
            start < n,
            has_sign == (s@[0] == '+' || s@[0] == '-'),
            neg == (s@[0] == '-'),
            start == (if has_sign {
                1usize
            } else {
                0usize
            }),
            digits == s@.subrange(start as int, n as int),
            !has_sign ==> digits == s@,
            all_digits(digits.take(i - start)),
            mag == digits_value(digits.take(i - start)),
            mag <= 0x8000_0000,
        decreases n - i,
    {
        let c = s.get_char(i);
        let u = c as u32;
        if u < 48 || u > 57 {
            proof {
                assert(digits[i - start] == s@[i as int]);
                assert(!all_digits(digits));
            }
            return None;
        }
        let d = (u - 48) as u64;
        proof {
            assert(digits.take(i - start + 1).drop_last() =~= digits.take(i - start));
            assert(digits.take(i - start + 1).last() == s@[i as int]);
        }
        mag = mag * 10 + d;
        if mag > 0x8000_0000 {
            proof {
                if all_digits(digits) {
                    lemma_digits_value_prefix_le(digits, i - start + 1);
                }
            }
            return None;
        }
        i += 1;
    }
    proof {
        assert(digits.take(n - start) =~= digits);
    }
    if neg {
        if mag == 0x8000_0000 {
            Some(i32::MIN)
        } else {
            Some(-(mag as i32))
        }
    } else {
        if mag > 0x7FFF_FFFF {
            return None;
        }
        Some(mag as i32)
    }
}

} // verus!
