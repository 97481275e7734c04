//! Parsing of the attempt-count field.
//!
//! The attempt count is the one numeric field of the edit dialog. Its parser
//! is specified exactly: a decimal numeral, optionally with a leading plus
//! sign, whose value fits a 32-bit count; anything else is rejected.
use vstd::prelude::*;
use vstd::string::StrSliceExecFns;

verus! {

/// Whether a character is a decimal digit.
pub open spec fn is_dec_digit(c: char) -> bool {
    '0' as int <= c as int <= '9' as int
}

/// The value of a sequence of decimal digits, most significant first.
pub open spec fn dec_value(s: Seq<char>) -> int
    decreases s.len(),
{
    if s.len() == 0 {
        0
    } else {
        dec_value(s.drop_last()) * 10 + (s.last() as int - '0' as int)
    }
}

/// The digits of a numeral: everything after an optional leading plus sign.
pub open spec fn numeral_digits(s: Seq<char>) -> Seq<char> {
    if s.len() > 0 && s[0] == '+' {
        s.skip(1)
    } else {
        s
    }
}

/// Whether a text is a decimal numeral whose value fits a `u32`: an optional
/// plus sign, then at least one digit and nothing else, with a value of at
/// most `u32::MAX`.
pub open spec fn is_u32_numeral(s: Seq<char>) -> bool {
    let digits = numeral_digits(s);
    &&& digits.len() > 0
    &&& forall|i: int| 0 <= i < digits.len() ==> is_dec_digit(#[trigger] digits[i])
    &&& dec_value(digits) <= u32::MAX
}

/// What parsing a text as a 32-bit count yields.
pub open spec fn spec_parse_u32(s: Seq<char>) -> Option<u32> {
    if is_u32_numeral(s) {
        Some(dec_value(numeral_digits(s)) as u32)
    } else {
        None
    }
}

/// The value of a digit sequence is never negative.
proof fn lemma_dec_value_nonneg(s: Seq<char>)
    requires
        forall|i: int| 0 <= i < s.len() ==> is_dec_digit(#[trigger] s[i]),
    ensures
        dec_value(s) >= 0,
    decreases s.len(),
{
    if s.len() > 0 {
        lemma_dec_value_nonneg(s.drop_last());
    }
}

/// Extending a digit sequence never shrinks its value: the value of a prefix
/// is at most the value of the whole.
proof fn lemma_dec_value_prefix(s: Seq<char>, i: int)
    requires
        forall|j: int| 0 <= j < s.len() ==> is_dec_digit(#[trigger] s[j]),
        0 <= i <= s.len(),
    ensures
        dec_value(s.take(i)) <= dec_value(s),
    decreases s.len(),
{
    if i < s.len() {
        assert(s.take(i) =~= s.drop_last().take(i));
        lemma_dec_value_prefix(s.drop_last(), i);
        lemma_dec_value_nonneg(s.drop_last());
    } else {
        assert(s.take(i) =~= s);
    }
}

/// Parses the attempt-count field: exactly the decimal numerals fitting a
/// 32-bit count are accepted, and the accepted value is the numeral's.
pub fn parse_attempt_count(s: &str) -> (r: Option<u32>)
    ensures
        r == spec_parse_u32(s@),
        r is Some <==> is_u32_numeral(s@),
{
    let n = s.unicode_len();
    let mut start: usize = 0;
    if n > 0 && s.get_char(0) == '+' {
        start = 1;
    }
    proof {
        assert(numeral_digits(s@) =~= s@.skip(start as int));
    }
    if start >= n {
        return None;
    }
    let ghost digits = s@.skip(start as int);
    let mut acc: u32 = 0;
    let mut i: usize = start;
    while i < n
        invariant
            digits == s@.skip(start as int),
            digits == numeral_digits(s@),
            n == s@.len(),
            start <= i <= n,
            start < n,
            forall|j: int| 0 <= j < i - start ==> is_dec_digit(#[trigger] digits[j]),
            acc as int == dec_value(digits.take(i - start)),
        decreases n - i,
    {
        let c = s.get_char(i);
        let d = c as u32;
        if d < 48 || d > 57 {
            proof {
                assert(digits[i - start] == s@[i as int]);
                assert(!is_dec_digit(digits[i - start]));
            }
            return None;
        }
        let digit = d - 48;
        proof {
            assert(is_dec_digit(digits[i - start]));
            assert(digits.take(i + 1 - start).drop_last() =~= digits.take(i - start));
            assert(digits.take(i + 1 - start).last() == s@[i as int]);
        }
        if acc > (u32::MAX - digit) / 10 {
            // the numeral has already outgrown a 32-bit count here, and more
            // digits only make it larger
            proof {
                assert(dec_value(digits.take(i + 1 - start)) > u32::MAX);
                if is_u32_numeral(s@) {
                    lemma_dec_value_prefix(digits, i + 1 - start);
                    assert(false);
                }
            }
            return None;
        }
        acc = acc * 10 + digit;
        i = i + 1;
    }
    proof {
        assert(digits.take(n - start) =~= digits);
    }
    Some(acc)
}

} // verus!
