//! Parses the grid arguments: a decimal `u32` with an optional leading plus
//! sign, exactly as the standard integer parser accepts it.

use vstd::prelude::*;

verus! {

/// Whether `c` is a decimal digit.
pub open spec fn is_decimal_digit(c: char) -> bool {
    '0' as int <= c as int <= '9' as int
}

/// The numeric value of a decimal digit.
pub open spec fn digit_value(c: char) -> int {
    c as int - '0' as int
}

/// Whether every character of `s` is a decimal digit.
pub open spec fn all_digits(s: Seq<char>) -> bool {
    forall|i: int| 0 <= i < s.len() ==> is_decimal_digit(s[i])
}

/// The value of a sequence of decimal digits, most significant first.
pub open spec fn digits_value(s: Seq<char>) -> int
    decreases s.len(),
{
    if s.len() == 0 {
        0
    } else {
        digits_value(s.drop_last()) * 10 + digit_value(s.last())
    }
}

/// The digits of a numeral: the whole string, or what follows one leading
/// plus sign.
pub open spec fn digit_part(s: Seq<char>) -> Seq<char> {
    if s.len() > 0 && s[0] == '+' {
        s.subrange(1, s.len() as int)
    } else {
        s
    }
}

/// Whether `s` is a valid `u32` numeral: at least one digit after an
/// optional plus sign, digits only, and a value that fits.
pub open spec fn is_valid_u32_numeral(s: Seq<char>) -> bool {
    &&& digit_part(s).len() > 0
    &&& all_digits(digit_part(s))
    &&& digits_value(digit_part(s)) <= u32::MAX
}

/// The value of an all-digit sequence is non-negative.
proof fn lemma_digits_value_nonneg(s: Seq<char>)
    requires
        all_digits(s),
    ensures
        digits_value(s) >= 0,
    decreases s.len(),
{
    if s.len() > 0 {
        assert(all_digits(s.drop_last()));
        lemma_digits_value_nonneg(s.drop_last());
    }
}

/// Extending a digit sequence by one digit multiplies its value by ten and
/// adds the digit.
proof fn lemma_digits_value_step(s: Seq<char>, i: int)
    requires
        0 <= i < s.len(),
    ensures
        digits_value(s.subrange(0, i + 1)) == digits_value(s.subrange(0, i)) * 10 + digit_value(
            s[i],
        ),
{
    assert(s.subrange(0, i + 1).drop_last() =~= s.subrange(0, i));
    assert(s.subrange(0, i + 1).last() == s[i]);
}

/// The value of an all-digit sequence is at least the value of any prefix.
proof fn lemma_digits_value_prefix_le(s: Seq<char>, i: int)
    requires
        all_digits(s),
        0 <= i <= s.len(),
    ensures
        digits_value(s.subrange(0, i)) <= digits_value(s),
    decreases s.len() - i,
{
    if i == s.len() {
        assert(s.subrange(0, i) =~= s);
    } else {
        lemma_digits_value_step(s, i);
        assert(all_digits(s.subrange(0, i)));
        lemma_digits_value_nonneg(s.subrange(0, i));
        lemma_digits_value_prefix_le(s, i + 1);
    }
}

/// Parses `s` as a decimal `u32`, accepting one optional leading plus sign:
/// `Some` exactly on valid numerals, carrying their value.
pub fn parse_u32(s: &str) -> (r: Option<u32>)
    ensures
        match r {
            Some(v) => is_valid_u32_numeral(s@) && v == digits_value(digit_part(s@)),
            None => !is_valid_u32_numeral(s@),
        },
{
    let n: usize = s.unicode_len();
    let start: usize = if n > 0 && s.get_char(0) == '+' {
        1
    } else {
        0
    };
    if start >= n {
        return None;
    }
    let ghost digits = digit_part(s@);
    proof {
        assert(digits =~= s@.subrange(start as int, n as int));
    }
    let mut acc: u64 = 0;
    let mut i: usize = start;
    while i < n
        invariant
            start <= i <= n,
            n == s@.len(),
            start == 1 ==> s@[0] == '+',
            digits == digit_part(s@),
            digits =~= s@.subrange(start as int, n as int),
            all_digits(digits.subrange(0, i - start)),
            acc == digits_value(digits.subrange(0, i - start)),
            acc <= u32::MAX,
        decreases n - i,
    {
        let c = s.get_char(i);
        let code: u32 = c as u32;
        if code < 48 || code > 57 {
            proof {
                assert(digits[i - start] == s@[i as int]);
                assert(!is_decimal_digit(digits[i - start]));
                assert(!all_digits(digits));
            }
            return None;
        }
        let d: u64 = (code - 48) as u64;
        proof {
            assert(digits[i - start] == s@[i as int]);
            assert(is_decimal_digit(digits[i - start]));
            assert(all_digits(digits.subrange(0, i - start + 1)));
            lemma_digits_value_step(digits, i - start);
        }
        let wide: u64 = acc * 10 + d;
        if wide > u32::MAX as u64 {
            proof {
                if all_digits(digits) {
                    lemma_digits_value_prefix_le(digits, i - start + 1);
                }
            }
            return None;
        }
        acc = wide;
        i = i + 1;
    }
    proof {
        assert(digits.subrange(0, n - start) =~= digits);
    }
    Some(acc as u32)
}

} // verus!
