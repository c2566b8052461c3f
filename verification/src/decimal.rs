//! Decimal numerals as they appear in settings: an optional sign followed by
//! one or more ASCII digits.

use vstd::prelude::*;
use vstd::string::*;
use vstd::utf8::is_ascii_chars;

verus! {

/// Whether `c` is one of the ASCII digits `0` to `9`.
pub open spec fn is_digit(c: char) -> bool {
    '0' <= c <= '9'
}

/// The number that the digit `c` stands for.
pub open spec fn digit_value(c: char) -> nat
    recommends
        is_digit(c),
{
    (c as u32 - '0' as u32) as nat
}

/// Whether `s` holds digits only.
pub open spec fn all_digits(s: Seq<char>) -> bool {
    forall|i: int| 0 <= i < s.len() ==> is_digit(#[trigger] s[i])
}

/// The number written by the digits `s`, most significant digit first.
pub open spec fn digits_value(s: Seq<char>) -> nat
    recommends
        all_digits(s),
    decreases s.len(),
{
    if s.len() == 0 {
        0
    } else {
        digits_value(s.drop_last()) * 10 + digit_value(s.last())
    }
}

/// The value of an unsigned numeral: an optional `+`, then at least one
/// digit. `None` for every other text.
pub open spec fn unsigned_value(s: Seq<char>) -> Option<nat> {
    let digits = if s.len() > 0 && s[0] == '+' {
        s.subrange(1, s.len() as int)
    } else {
        s
    };
    if digits.len() > 0 && all_digits(digits) {
        Some(digits_value(digits))
    } else {
        None
    }
}

/// The value of a signed numeral: an optional `+` or `-`, then at least one
/// digit. `None` for every other text.
pub open spec fn signed_value(s: Seq<char>) -> Option<int> {
    if s.len() > 0 && s[0] == '-' {
        let digits = s.subrange(1, s.len() as int);
        if digits.len() > 0 && all_digits(digits) {
            Some(-(digits_value(digits) as int))
        } else {
            None
        }
    } else {
        match unsigned_value(s) {
            Some(v) => Some(v as int),
            None => None,
        }
    }
}

/// A numeral is worth at least as much as any of its prefixes.
pub proof fn lemma_prefix_value_le(s: Seq<char>, k: int)
    requires
        0 <= k <= s.len(),
    ensures
        digits_value(s.subrange(0, k)) <= digits_value(s),
    decreases s.len(),
{
    if k == s.len() {
        assert(s.subrange(0, k) =~= s);
    } else {
        lemma_prefix_value_le(s.drop_last(), k);
        assert(s.drop_last().subrange(0, k) =~= s.subrange(0, k));
    }
}

/// A text with a character outside ASCII is no numeral.
pub proof fn lemma_numerals_are_ascii(s: Seq<char>)
    requires
        !is_ascii_chars(s),
    ensures
        unsigned_value(s) is None,
        signed_value(s) is None,
{
    let i = choose|i: int| 0 <= i < s.len() && !('\0' <= #[trigger] s[i] <= '\u{7f}');
    let tail = s.subrange(1, s.len() as int);
    assert(!is_digit(s[i]));
    if i >= 1 {
        assert(tail[i - 1] == s[i]);
    }
}

/// Reads the digits of `s` from position `start` to its end as a number no
/// larger than `limit`.
///
/// The result is `Some` exactly when that part of `s` is a non-empty run of
/// digits whose value does not exceed `limit`.
fn parse_digits(s: &str, start: usize, limit: u64) -> (r: Option<u64>)
    requires
        is_ascii(s),
        start <= s@.len(),
    ensures
        r == ({
            let digits = s@.subrange(start as int, s@.len() as int);
            if digits.len() > 0 && all_digits(digits) && digits_value(digits) <= limit {
                Some(digits_value(digits) as u64)
            } else {
                None
            }
        }),
{
    let bytes = s.as_bytes();
    let len: usize = bytes.len();
    proof {
        is_ascii_spec_bytes(s);
    }
    let ghost digits = s@.subrange(start as int, s@.len() as int);
    if start == len {
        return None;
    }
    let mut acc: u64 = 0;
    let mut i: usize = start;
    while i < len
        invariant
            is_ascii(s),
            len == s@.len(),
            bytes@ == s.spec_bytes(),
            start <= i <= len,
            digits == s@.subrange(start as int, s@.len() as int),
            all_digits(digits.subrange(0, i - start)),
            acc == digits_value(digits.subrange(0, i - start)),
            acc <= limit,
        decreases len - i,
    {
        proof {
            is_ascii_spec_bytes(s);
        }
        let b: u8 = bytes[i];
        let ghost c: char = s@[i as int];
        let ghost before = digits.subrange(0, i - start);
        let ghost upto = digits.subrange(0, i - start + 1);
        assert(digits[i - start] == c);
        assert(upto.drop_last() =~= before);
        assert(upto.last() == c);
        assert('\0' <= c <= '\u{7f}');
        if b < 48 || b > 57 {
            assert(!is_digit(c));
            assert(!all_digits(digits));
            return None;
        }
        assert(is_digit(c));
        let d: u64 = (b - 48) as u64;
        assert(d == digit_value(c));
        assert(digits_value(upto) == acc * 10 + d);
        if d > limit || acc > (limit - d) / 10 {
            proof {
                assert(acc * 10 + d > limit);
                lemma_prefix_value_le(digits, i - start + 1);
            }
            return None;
        }
        acc = acc * 10 + d;
        assert forall|j: int| 0 <= j < upto.len() implies is_digit(#[trigger] upto[j]) by {
            if j < before.len() {
                assert(upto[j] == before[j]);
            }
        }
        i = i + 1;
    }
    assert(digits.subrange(0, i - start) =~= digits);
    Some(acc)
}

/// Reads `s` as an unsigned numeral that fits in `usize`.
///
/// Accepted are an optional `+` and then one or more digits; leading zeros
/// are allowed. Anything else, and any value above `usize::MAX`, gives `None`.
pub fn parse_usize(s: &str) -> (r: Option<usize>)
    ensures
        r == (match unsigned_value(s@) {
            Some(v) if v <= usize::MAX => Some(v as usize),
            _ => None::<usize>,
        }),
{
    if !s.is_ascii() {
        proof {
            lemma_numerals_are_ascii(s@);
        }
        return None;
    }
    let bytes = s.as_bytes();
    proof {
        is_ascii_spec_bytes(s);
    }
    let start: usize = if bytes.len() > 0 && bytes[0] == 43 {
        1
    } else {
        0
    };
    assert(start == 1 <==> (s@.len() > 0 && s@[0] == '+'));
    assert(start == 0 ==> s@.subrange(0, s@.len() as int) =~= s@);
    match parse_digits(s, start, usize::MAX as u64) {
        Some(v) => Some(v as usize),
        None => None,
    }
}

/// Reads `s` as a signed numeral that fits in `i64`.
///
/// Accepted are an optional `+` or `-` and then one or more digits; leading
/// zeros are allowed, and so is `-0`. Anything else, and any value outside
/// `i64`, gives `None`.
pub fn parse_i64(s: &str) -> (r: Option<i64>)
    ensures
        r == (match signed_value(s@) {
            Some(v) if i64::MIN <= v <= i64::MAX => Some(v as i64),
            _ => None::<i64>,
        }),
{
    if !s.is_ascii() {
        proof {
            lemma_numerals_are_ascii(s@);
        }
        return None;
    }
    let bytes = s.as_bytes();
    proof {
        is_ascii_spec_bytes(s);
    }
    if bytes.len() > 0 && bytes[0] == 45 {
        assert(s@[0] == '-');
        match parse_digits(s, 1, 0x8000_0000_0000_0000) {
            Some(m) => {
                if m == 0x8000_0000_0000_0000 {
                    Some(i64::MIN)
                } else {
                    Some(0 - (m as i64))
                }
            },
            None => None,
        }
    } else {
        assert(!(s@.len() > 0 && s@[0] == '-'));
        let start: usize = if bytes.len() > 0 && bytes[0] == 43 {
            1
        } else {
            0
        };
        assert(start == 1 <==> (s@.len() > 0 && s@[0] == '+'));
        assert(start == 0 ==> s@.subrange(0, s@.len() as int) =~= s@);
        match parse_digits(s, start, 0x7fff_ffff_ffff_ffff) {
            Some(v) => Some(v as i64),
            None => None,
        }
    }
}

} // verus!
