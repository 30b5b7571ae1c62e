use crate::error::ConversionError;
use vstd::prelude::*;
use vstd::string::StrSliceExecFns;

verus! {

/// `c` is an ASCII decimal digit.
pub open spec fn is_dec_digit(c: char) -> bool {
    '0' <= c && c <= '9'
}

/// The numeric value of the digit `c`.
pub open spec fn digit_value(c: char) -> int {
    c as int - '0' as int
}

/// Every character of `s` is a decimal digit.
pub open spec fn all_dec_digits(s: Seq<char>) -> bool {
    forall|i: int| 0 <= i < s.len() ==> is_dec_digit(#[trigger] s[i])
}

/// The base-10 value of a digit string; the empty string counts as 0.
pub open spec fn digits_value(s: Seq<char>) -> int
    decreases s.len(),
{
    if s.len() == 0 {
        0
    } else {
        digits_value(s.drop_last()) * 10 + digit_value(s.last())
    }
}

/// `s` opens with an explicit sign character.
pub open spec fn has_sign(s: Seq<char>) -> bool {
    s.len() > 0 && (s[0] == '+' || s[0] == '-')
}

/// The digits of `s`: all of it, with a leading sign stripped.
pub open spec fn unsigned_part(s: Seq<char>) -> Seq<char> {
    if has_sign(s) {
        s.skip(1)
    } else {
        s
    }
}

/// `s` is a base-10 signed integer literal: an optional `+` or `-`, then at
/// least one decimal digit and nothing else. This is exactly the shape that
/// the runtime's integer parser accepts; no surrounding whitespace is
/// tolerated.
pub open spec fn is_int_literal(s: Seq<char>) -> bool {
    unsigned_part(s).len() > 0 && all_dec_digits(unsigned_part(s))
}

/// The mathematical value of the literal `s`.
pub open spec fn literal_value(s: Seq<char>) -> int {
    if s.len() > 0 && s[0] == '-' {
        -digits_value(unsigned_part(s))
    } else {
        digits_value(unsigned_part(s))
    }
}

/// `s` parses as an `i32`: a well-formed literal whose value is in range.
pub open spec fn parses_as_i32(s: Seq<char>) -> bool {
    is_int_literal(s) && i32::MIN <= literal_value(s) <= i32::MAX
}

/// The value of a digit string is never negative.
proof fn lemma_digits_value_nonneg(s: Seq<char>)
    requires
        all_dec_digits(s),
    ensures
        digits_value(s) >= 0,
    decreases s.len(),
{
    if s.len() > 0 {
        assert(all_dec_digits(s.drop_last()));
        lemma_digits_value_nonneg(s.drop_last());
    }
}

/// Reading one more digit multiplies the prefix value by ten and adds it.
proof fn lemma_digits_value_take_step(s: Seq<char>, i: int)
    requires
        0 <= i < s.len(),
    ensures
        digits_value(s.take(i + 1)) == digits_value(s.take(i)) * 10 + digit_value(s[i]),
{
    assert(s.take(i + 1).drop_last() =~= s.take(i));
    assert(s.take(i + 1).last() == s[i]);
}

/// On a digit string, the value of a prefix never exceeds the whole value.
proof fn lemma_digits_value_take_le(s: Seq<char>, i: int)
    requires
        all_dec_digits(s),
        0 <= i <= s.len(),
    ensures
        digits_value(s.take(i)) <= digits_value(s),
    decreases s.len() - i,
{
    if i == s.len() {
        assert(s.take(i) =~= s);
    } else {
        lemma_digits_value_take_step(s, i);
        assert(all_dec_digits(s.take(i)));
        lemma_digits_value_nonneg(s.take(i));
        lemma_digits_value_take_le(s, i + 1);
    }
}

/// Reads `s` as a base-10 signed 32-bit integer, exactly as the runtime's
/// integer parser does: it succeeds if and only if `s` is an optional sign
/// followed by one or more decimal digits and the value fits in an `i32`;
/// every other input gives the recoverable `InvalidInputError`.
pub fn parse_i32(s: &str) -> (r: Result<i32, ConversionError>)
    ensures
        r is Ok <==> parses_as_i32(s@),
        r is Ok ==> r->Ok_0 as int == literal_value(s@),
        r is Err ==> r->Err_0 == ConversionError::InvalidInputError,
{
    let n = s.unicode_len();
    if n == 0 {
        return Err(ConversionError::InvalidInputError);
    }
    let first = s.get_char(0);
    let neg = first == '-';
    let start: usize = if first == '-' || first == '+' {
        1
    } else {
        0
    };
    if n == start {
        // a bare sign has no digits
        return Err(ConversionError::InvalidInputError);
    }
    // the largest magnitude an i32 of this sign can carry
    let limit: u64 = if neg {
        2147483648
    } else {
        2147483647
    };
    let ghost digits = unsigned_part(s@);
    proof {
        assert(digits =~= s@.subrange(start as int, n as int));
    }
    let mut acc: u64 = 0;
    let mut i: usize = start;
    while i < n
        invariant
            start <= i <= n,
            start < n,
            n == s@.len(),
            start == if has_sign(s@) { 1int } else { 0int },
            neg == (s@[0] == '-'),
            limit == if neg { 2147483648u64 } else { 2147483647u64 },
            digits == unsigned_part(s@),
            digits =~= s@.subrange(start as int, n as int),
            all_dec_digits(digits.take(i - start)),
            acc == digits_value(digits.take(i - start)),
            acc <= limit,
        decreases n - i,
    {
        let c = s.get_char(i);
        let u = c as u32;
        if u < 48 || u > 57 {
            proof {
                assert(digits[i - start] == s@[i as int]);
                assert(!is_dec_digit(digits[i - start]));
            }
            return Err(ConversionError::InvalidInputError);
        }
        let d = (u - 48) as u64;
        proof {
            assert(is_dec_digit(s@[i as int]));
            assert(d == digit_value(s@[i as int]));
        }
        acc = acc * 10 + d;
        i = i + 1;
        proof {
            lemma_digits_value_take_step(digits, i - start - 1);
        }
        if acc > limit {
            proof {
                if all_dec_digits(digits) {
                    lemma_digits_value_take_le(digits, i - start);
                    assert(digits_value(digits) > limit);
                }
            }
            return Err(ConversionError::InvalidInputError);
        }
    }
    proof {
        assert(digits.take(n - start) =~= digits);
        assert(is_int_literal(s@));
        lemma_digits_value_nonneg(digits);
    }
    if neg {
        let v: i64 = -(acc as i64);
        Ok(v as i32)
    } else {
        Ok(acc as i32)
    }
}

} // verus!
