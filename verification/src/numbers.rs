//! Decimal numerals, sign extension, and the wrapping arithmetic of the
//! 32-bit architectural state.

use vstd::prelude::*;

verus! {

pub open spec fn is_digit_char(c: char) -> bool {
    '0' <= c && c <= '9'
}

pub open spec fn digit_val(c: char) -> int {
    c as int - '0' as int
}

/// Value of an unsigned decimal numeral, most significant digit first.
pub open spec fn spec_digits_val(s: Seq<char>) -> int
    decreases s.len(),
{
    if s.len() == 0 {
        0
    } else {
        spec_digits_val(s.drop_last()) * 10 + digit_val(s.last())
    }
}

pub open spec fn all_digits(s: Seq<char>) -> bool {
    s.len() > 0 && forall|i: int| 0 <= i < s.len() ==> is_digit_char(s[i])
}

/// The integer a token denotes: an optional sign followed by at least one
/// decimal digit. `None` when the token has any other shape.
pub open spec fn spec_parse_int(s: Seq<char>) -> Option<int> {
    if s.len() >= 1 && (s[0] == '-' || s[0] == '+') {
        if all_digits(s.skip(1)) {
            if s[0] == '-' {
                Some(-spec_digits_val(s.skip(1)))
            } else {
                Some(spec_digits_val(s.skip(1)))
            }
        } else {
            None
        }
    } else if all_digits(s) {
        Some(spec_digits_val(s))
    } else {
        None
    }
}

pub proof fn lemma_digits_val_nonneg(s: Seq<char>)
    requires
        forall|i: int| 0 <= i < s.len() ==> is_digit_char(s[i]),
    ensures
        spec_digits_val(s) >= 0,
    decreases s.len(),
{
    if s.len() > 0 {
        lemma_digits_val_nonneg(s.drop_last());
    }
}

/// Runtime digit test matching [`is_digit_char`].
pub fn is_digit(c: char) -> (r: bool)
    ensures
        r == is_digit_char(c),
{
    '0' <= c && c <= '9'
}

/// Parses a token as a signed 32-bit decimal integer. Returns `None` exactly
/// when the token is not a numeral or its value does not fit in an `i32`.
pub fn parse_i32(s: &str) -> (r: Option<i32>)
    ensures
        spec_parse_int(s@) is None ==> r is None,
        spec_parse_int(s@) matches Some(v) ==> if i32::MIN <= v <= i32::MAX {
            r == Some(v as i32)
        } else {
            r is None
        },
{
    let n = s.unicode_len();
    if n == 0 {
        return None;
    }
    let first = s.get_char(0);
    let negative = first == '-';
    let start: usize = if first == '-' || first == '+' {
        1
    } else {
        0
    };
    if start == n {
        return None;
    }
    let ghost digits = s@.skip(start as int);
    let mut mag: i64 = 0;
    let mut i: usize = start;
    proof {
        assert(digits.subrange(0, 0) =~= Seq::<char>::empty());
        if start == 0 {
            assert(digits =~= s@);
        }
    }
    while i < n
        invariant
            start <= i <= n,
            n == s@.len(),
            start < n,
            digits == s@.skip(start as int),
            start == 0 || start == 1,
            (s@[0] == '-' || s@[0] == '+') <==> start == 1,
            negative == (s@[0] == '-'),
            start == 0 ==> digits == s@,
            forall|j: int| 0 <= j < i - start ==> is_digit_char(digits[j]),
            spec_digits_val(digits.subrange(0, i - start)) <= 0x1_0000_0000i64 ==> mag
                == spec_digits_val(digits.subrange(0, i - start)),
            spec_digits_val(digits.subrange(0, i - start)) > 0x1_0000_0000i64 ==> mag
                > 0x1_0000_0000i64,
            0 <= mag <= 0xa_0000_0009i64,
        decreases n - i,
    {
        let c = s.get_char(i);
        if !is_digit(c) {
            proof {
                assert(digits[i - start] == s@[i as int]);
            }
            return None;
        }
        let d: i64 = char_digit_value(c);
        let ghost pfx = digits.subrange(0, i - start);
        let ghost pfx2 = digits.subrange(0, i + 1 - start);
        proof {
            assert(pfx2.drop_last() =~= pfx);
            assert(pfx2.last() == digits[i - start]);
            lemma_digits_val_nonneg(pfx);
        }
        if mag <= 0x1_0000_0000i64 {
            mag = mag * 10 + d;
        }
        proof {
            assert(spec_digits_val(pfx2) == spec_digits_val(pfx) * 10 + digit_val(
                digits[i - start],
            ));
        }
        i += 1;
    }
    proof {
        assert(digits.subrange(0, n - start) =~= digits);
        lemma_digits_val_nonneg(digits);
    }
    if negative {
        if mag > 0x8000_0000i64 {
            return None;
        }
        Some((-mag) as i32)
    } else {
        if mag > 0x7fff_ffffi64 {
            return None;
        }
        Some(mag as i32)
    }
}

/// The numeric value of a decimal digit character.
fn char_digit_value(c: char) -> (d: i64)
    requires
        is_digit_char(c),
    ensures
        d == digit_val(c),
        0 <= d <= 9,
{
    (c as u32 - '0' as u32) as i64
}

/// Parses a token as a signed 16-bit decimal integer. Returns `None` exactly
/// when the token is not a numeral or its value does not fit in an `i16`.
pub fn parse_i16(s: &str) -> (r: Option<i16>)
    ensures
        spec_parse_int(s@) is None ==> r is None,
        spec_parse_int(s@) matches Some(v) ==> if i16::MIN <= v <= i16::MAX {
            r == Some(v as i16)
        } else {
            r is None
        },
{
    match parse_i32(s) {
        Some(v) => {
            if -32768 <= v && v <= 32767 {
                Some(v as i16)
            } else {
                None
            }
        },
        None => None,
    }
}

/// A 16-bit immediate widened to 32 bits with its sign preserved.
pub open spec fn spec_sign_extend(imm: u16) -> i32 {
    if imm < 0x8000 {
        imm as i32
    } else {
        (imm - 0x1_0000) as i32
    }
}

/// The two's-complement 16-bit image of a value in `[-32768, 32767]`.
pub open spec fn spec_to_u16(v: int) -> u16 {
    if v >= 0 {
        v as u16
    } else {
        (v + 0x1_0000) as u16
    }
}

pub proof fn lemma_sign_extend_to_u16(v: int)
    requires
        -0x8000 <= v <= 0x7fff,
    ensures
        spec_sign_extend(spec_to_u16(v)) == v,
{
}

/// Runtime sign extension of a 16-bit immediate.
pub fn sign_extend(imm: u16) -> (r: i32)
    ensures
        r == spec_sign_extend(imm),
{
    if imm < 0x8000 {
        imm as i32
    } else {
        (imm as i32) - 0x1_0000
    }
}

/// Runtime image of a signed 16-bit value in the immediate field.
pub fn to_u16(v: i16) -> (r: u16)
    ensures
        r == spec_to_u16(v as int),
{
    if v >= 0 {
        v as u16
    } else {
        ((v as i32) + 0x1_0000) as u16
    }
}

/// A mathematical integer reduced into the signed 32-bit range, as two's
/// complement wrap-around does.
pub open spec fn spec_wrap_i32(v: int) -> i32 {
    if v > i32::MAX {
        (v - 0x1_0000_0000) as i32
    } else if v < i32::MIN {
        (v + 0x1_0000_0000) as i32
    } else {
        v as i32
    }
}

/// A mathematical integer reduced into the unsigned 32-bit range, as
/// wrap-around does.
pub open spec fn spec_wrap_u32(v: int) -> u32 {
    if v < 0 {
        (v + 0x1_0000_0000) as u32
    } else if v > u32::MAX {
        (v - 0x1_0000_0000) as u32
    } else {
        v as u32
    }
}

/// Wrapping sum of two registers.
pub fn wrap_add(a: i32, b: i32) -> (r: i32)
    ensures
        r == spec_wrap_i32(a + b),
{
    let v: i64 = a as i64 + b as i64;
    if v > 0x7fff_ffffi64 {
        (v - 0x1_0000_0000i64) as i32
    } else if v < -0x8000_0000i64 {
        (v + 0x1_0000_0000i64) as i32
    } else {
        v as i32
    }
}

/// Wrapping difference of two registers.
pub fn wrap_sub(a: i32, b: i32) -> (r: i32)
    ensures
        r == spec_wrap_i32(a - b),
{
    let v: i64 = a as i64 - b as i64;
    if v > 0x7fff_ffffi64 {
        (v - 0x1_0000_0000i64) as i32
    } else if v < -0x8000_0000i64 {
        (v + 0x1_0000_0000i64) as i32
    } else {
        v as i32
    }
}

} // verus!
