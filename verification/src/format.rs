//! The two renderers shared by the entries: a fixed-width decimal-seconds
//! string and an HH:MM:SS string, each with a configurable fractional-digit
//! width. Fractional digits are truncated, never rounded.

use vstd::prelude::*;
use vstd::string::StringExecFns;

use crate::digits::{
    dec_chars, digit_val, is_digit_char, lemma_dec_chars_len, lemma_padded_dec_chars_exact,
    lemma_pow10_adds, lemma_pow10_pos, lemma_two_digit_chars, padded_dec_chars, pow10, pow10_u64,
    u64_to_padded_string, zeros,
};
use crate::span::{TimeSpan, NANOS_PER_SEC};

verus! {

/// The fractional suffix: a decimal point followed by exactly `precision`
/// digits, the leading digits of the nanosecond part; empty when `precision`
/// is zero. Beyond the nine digits a nanosecond count has, zeros follow.
pub open spec fn frac_chars(nanos: nat, precision: nat) -> Seq<char> {
    if precision == 0 {
        Seq::<char>::empty()
    } else if precision <= 9 {
        seq!['.'] + padded_dec_chars(nanos / pow10((9 - precision) as nat), precision)
    } else {
        seq!['.'] + padded_dec_chars(nanos, 9) + zeros((precision - 9) as nat)
    }
}

/// The fixed-width decimal rendering of a span of time in seconds: the whole
/// seconds zero-padded to `digits` characters, then the fractional suffix.
pub open spec fn fixed_decimal_chars(digits: nat, precision: nat, secs: nat, nanos: nat) -> Seq<
    char,
> {
    padded_dec_chars(secs, digits) + frac_chars(nanos, precision)
}

/// The HH:MM:SS rendering: hours, minutes and seconds zero-padded to two
/// characters each, joined by colons, then the fractional suffix.
pub open spec fn hms_chars(precision: nat, h: nat, m: nat, s: nat, nanos: nat) -> Seq<char> {
    padded_dec_chars(h, 2) + seq![':'] + padded_dec_chars(m, 2) + seq![':'] + padded_dec_chars(
        s,
        2,
    ) + frac_chars(nanos, precision)
}

/// Appends the fractional suffix for `nanos` to `out`.
fn append_frac(out: &mut String, precision: u8, nanos: u32)
    requires
        nanos < NANOS_PER_SEC,
    ensures
        final(out)@ == old(out)@ + frac_chars(nanos as nat, precision as nat),
{
    if precision == 0 {
        proof {
            assert(out@ =~= old(out)@ + frac_chars(nanos as nat, precision as nat));
        }
        return ;
    }
    out.append(".");
    proof {
        reveal_strlit(".");
    }
    if precision <= 9 {
        let divisor = pow10_u64((9 - precision) as u8);
        proof {
            lemma_pow10_pos((9 - precision) as nat);
        }
        let leading = (nanos as u64) / divisor;
        let digits_part = u64_to_padded_string(leading, precision);
        out.append(digits_part.as_str());
        proof {
            assert(out@ =~= old(out)@ + frac_chars(nanos as nat, precision as nat));
        }
    } else {
        let digits_part = u64_to_padded_string(nanos as u64, 9);
        out.append(digits_part.as_str());
        let mut i: u8 = 9;
        while i < precision
            invariant
                9 <= i <= precision,
                out@ =~= old(out)@ + seq!['.'] + padded_dec_chars(nanos as nat, 9) + zeros(
                    (i - 9) as nat,
                ),
            decreases precision - i,
        {
            out.append("0");
            proof {
                reveal_strlit("0");
                assert(out@ =~= old(out)@ + seq!['.'] + padded_dec_chars(nanos as nat, 9) + zeros(
                    (i + 1 - 9) as nat,
                ));
            }
            i = i + 1;
        }
        proof {
            assert(out@ =~= old(out)@ + frac_chars(nanos as nat, precision as nat));
        }
    }
}

/// Renders a span of time as seconds: the whole-second part zero-padded to
/// `digits` characters, then, when `precision` is positive, a decimal point
/// and exactly `precision` fractional digits (truncated, not rounded).
pub fn format_fixed_decimal(digits: u8, precision: u8, value: TimeSpan) -> (r: String)
    requires
        value.wf(),
    ensures
        r@ == fixed_decimal_chars(
            digits as nat,
            precision as nat,
            value.secs as nat,
            value.nanos as nat,
        ),
{
    let mut r = u64_to_padded_string(value.secs, digits);
    append_frac(&mut r, precision, value.nanos);
    r
}

/// Renders hours, minutes and seconds as HH:MM:SS, each field zero-padded to
/// two characters (a field too large for two characters keeps all its
/// digits), then the fractional suffix for `nanos`.
pub fn format_hms(precision: u8, h: u64, m: u32, s: u32, nanos: u32) -> (r: String)
    requires
        nanos < NANOS_PER_SEC,
    ensures
        r@ == hms_chars(precision as nat, h as nat, m as nat, s as nat, nanos as nat),
{
    let mut r = u64_to_padded_string(h, 2);
    r.append(":");
    proof {
        reveal_strlit(":");
    }
    let m_part = u64_to_padded_string(m as u64, 2);
    r.append(m_part.as_str());
    r.append(":");
    let s_part = u64_to_padded_string(s as u64, 2);
    r.append(s_part.as_str());
    append_frac(&mut r, precision, nanos);
    proof {
        assert(r@ =~= hms_chars(precision as nat, h as nat, m as nat, s as nat, nanos as nat));
    }
    r
}

/// Law: the fractional suffix of a sub-second nanosecond count is a decimal
/// point followed by exactly `precision` digit characters.
pub proof fn lemma_frac_chars_exact(nanos: nat, precision: nat)
    requires
        nanos < pow10(9),
        precision >= 1,
    ensures
        frac_chars(nanos, precision).len() == 1 + precision,
        frac_chars(nanos, precision)[0] == '.',
        forall|i: int|
            1 <= i < 1 + precision ==> is_digit_char(#[trigger] frac_chars(nanos, precision)[i]),
{
    if precision <= 9 {
        lemma_pow10_adds(precision, (9 - precision) as nat);
        lemma_pow10_pos((9 - precision) as nat);
        vstd::arithmetic::div_mod::lemma_multiply_divide_lt(
            nanos as int,
            pow10((9 - precision) as nat) as int,
            pow10(precision) as int,
        );
        lemma_padded_dec_chars_exact(nanos / pow10((9 - precision) as nat), precision);
    } else {
        lemma_padded_dec_chars_exact(nanos, 9);
    }
}

/// Law: a fixed-width decimal rendering whose whole-second part fits in
/// `digits` digits consists of exactly `digits` digit characters, then, when
/// `precision` is positive, a single decimal point and exactly `precision`
/// digit characters.
pub proof fn lemma_fixed_decimal_shape(digits: nat, precision: nat, secs: nat, nanos: nat)
    requires
        digits >= 1,
        secs < pow10(digits),
        nanos < pow10(9),
    ensures
        ({
            let cs = fixed_decimal_chars(digits, precision, secs, nanos);
            &&& precision == 0 ==> cs.len() == digits
            &&& precision >= 1 ==> cs.len() == digits + 1 + precision && cs[digits as int] == '.'
            &&& forall|i: int|
                0 <= i < cs.len() && i != digits ==> is_digit_char(#[trigger] cs[i])
        }),
{
    lemma_padded_dec_chars_exact(secs, digits);
    if precision >= 1 {
        lemma_frac_chars_exact(nanos, precision);
    }
}

/// Law: for in-range hours, minutes and seconds, the HH:MM:SS rendering
/// carries each component as a two-digit zero-padded field, the fields joined
/// by colons, and the components can be read back from it exactly.
pub proof fn lemma_hms_round_trip(precision: nat, h: nat, m: nat, s: nat, nanos: nat)
    requires
        h < 24,
        m < 60,
        s < 60,
        nanos < pow10(9),
    ensures
        ({
            let cs = hms_chars(precision, h, m, s, nanos);
            &&& cs.len() == if precision == 0 {
                8int
            } else {
                8int + 1 + precision
            }
            &&& cs[2] == ':' && cs[5] == ':'
            &&& cs.subrange(0, 2) == padded_dec_chars(h, 2)
            &&& cs.subrange(3, 5) == padded_dec_chars(m, 2)
            &&& cs.subrange(6, 8) == padded_dec_chars(s, 2)
            &&& digit_val(cs[0]) * 10 + digit_val(cs[1]) == h
            &&& digit_val(cs[3]) * 10 + digit_val(cs[4]) == m
            &&& digit_val(cs[6]) * 10 + digit_val(cs[7]) == s
        }),
{
    let cs = hms_chars(precision, h, m, s, nanos);
    lemma_two_digit_chars(h);
    lemma_two_digit_chars(m);
    lemma_two_digit_chars(s);
    if precision >= 1 {
        lemma_frac_chars_exact(nanos, precision);
    }
    assert(cs.subrange(0, 2) =~= padded_dec_chars(h, 2));
    assert(cs.subrange(3, 5) =~= padded_dec_chars(m, 2));
    assert(cs.subrange(6, 8) =~= padded_dec_chars(s, 2));
    crate::digits::lemma_digit_char_val(h / 10);
    crate::digits::lemma_digit_char_val(h % 10);
    crate::digits::lemma_digit_char_val(m / 10);
    crate::digits::lemma_digit_char_val(m % 10);
    crate::digits::lemma_digit_char_val(s / 10);
    crate::digits::lemma_digit_char_val(s % 10);
}

} // verus!
