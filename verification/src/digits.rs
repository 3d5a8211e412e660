//! Decimal digit strings: specifications for the decimal rendering of a
//! natural number, with and without zero-padding, and verified renderers
//! producing those strings.

use vstd::prelude::*;
use vstd::string::StringExecFns;

verus! {

/// The character for one decimal digit.
pub open spec fn digit_char(d: nat) -> char {
    if d == 0 {
        '0'
    } else if d == 1 {
        '1'
    } else if d == 2 {
        '2'
    } else if d == 3 {
        '3'
    } else if d == 4 {
        '4'
    } else if d == 5 {
        '5'
    } else if d == 6 {
        '6'
    } else if d == 7 {
        '7'
    } else if d == 8 {
        '8'
    } else {
        '9'
    }
}

/// The numeric value of a decimal digit character.
pub open spec fn digit_val(c: char) -> nat {
    if c == '0' {
        0
    } else if c == '1' {
        1
    } else if c == '2' {
        2
    } else if c == '3' {
        3
    } else if c == '4' {
        4
    } else if c == '5' {
        5
    } else if c == '6' {
        6
    } else if c == '7' {
        7
    } else if c == '8' {
        8
    } else {
        9
    }
}

/// Whether a character is a decimal digit.
pub open spec fn is_digit_char(c: char) -> bool {
    c == '0' || c == '1' || c == '2' || c == '3' || c == '4' || c == '5' || c == '6' || c == '7'
        || c == '8' || c == '9'
}

/// Reading back the character of a digit yields the digit.
pub proof fn lemma_digit_char_val(d: nat)
    requires
        d < 10,
    ensures
        digit_val(digit_char(d)) == d,
        is_digit_char(digit_char(d)),
{
}

/// Ten to the power `e`.
pub open spec fn pow10(e: nat) -> nat
    decreases e,
{
    if e == 0 {
        1
    } else {
        10 * pow10((e - 1) as nat)
    }
}

/// The decimal digit string of `n`, most significant digit first, with no
/// leading zeros (a single zero for `n == 0`).
pub open spec fn dec_chars(n: nat) -> Seq<char>
    decreases n,
{
    if n < 10 {
        seq![digit_char(n)]
    } else {
        dec_chars(n / 10).push(digit_char(n % 10))
    }
}

/// A run of `k` zero characters.
pub open spec fn zeros(k: nat) -> Seq<char> {
    Seq::new(k, |i: int| '0')
}

/// The decimal digit string of `n`, left-padded with zeros to `width`
/// characters. A number too wide for `width` keeps all of its digits.
pub open spec fn padded_dec_chars(n: nat, width: nat) -> Seq<char> {
    if dec_chars(n).len() >= width {
        dec_chars(n)
    } else {
        zeros((width - dec_chars(n).len()) as nat) + dec_chars(n)
    }
}

/// Every character of a decimal digit string is a digit, and there is at
/// least one of them.
pub proof fn lemma_dec_chars_digits(n: nat)
    ensures
        dec_chars(n).len() >= 1,
        forall|i: int| 0 <= i < dec_chars(n).len() ==> is_digit_char(#[trigger] dec_chars(n)[i]),
    decreases n,
{
    if n < 10 {
        lemma_digit_char_val(n);
    } else {
        lemma_dec_chars_digits(n / 10);
        lemma_digit_char_val(n % 10);
    }
}

/// A number below `pow10(w)` needs at most `w` digits (at least one digit is
/// always produced).
pub proof fn lemma_dec_chars_len(n: nat, w: nat)
    requires
        n < pow10(w),
        w >= 1,
    ensures
        dec_chars(n).len() <= w,
    decreases w,
{
    if n < 10 {
    } else {
        vstd::arithmetic::div_mod::lemma_multiply_divide_lt(n as int, pow10((w - 1) as nat) as int, 10);
        lemma_dec_chars_len(n / 10, (w - 1) as nat);
    }
}

/// Powers of ten are positive.
pub proof fn lemma_pow10_pos(e: nat)
    ensures
        pow10(e) >= 1,
    decreases e,
{
    if e > 0 {
        lemma_pow10_pos((e - 1) as nat);
    }
}

/// Splitting an exponent splits the power: `pow10(a + b) == pow10(a) * pow10(b)`.
pub proof fn lemma_pow10_adds(a: nat, b: nat)
    ensures
        pow10(a + b) == pow10(a) * pow10(b),
    decreases a,
{
    if a == 0 {
        assert(pow10(a + b) == pow10(b));
        assert(pow10(a) * pow10(b) == 1 * pow10(b));
    } else {
        lemma_pow10_adds((a - 1) as nat, b);
        assert((a - 1) as nat + b == (a + b - 1) as nat);
        assert(pow10((a + b - 1) as nat) == pow10((a - 1) as nat) * pow10(b));
        assert(pow10(a + b) == 10 * (pow10((a - 1) as nat) * pow10(b)));
        let x = pow10((a - 1) as nat);
        let y = pow10(b);
        assert(10 * (x * y) == (10 * x) * y) by (nonlinear_arith);
        assert(pow10(a + b) == (10 * x) * y);
        assert(pow10(a) == 10 * x);
        assert(pow10(a) * pow10(b) == (10 * x) * y);
    }
}

/// A padded digit string of a number that fits the width has exactly the
/// width, and all of its characters are digits.
pub proof fn lemma_padded_dec_chars_exact(n: nat, width: nat)
    requires
        n < pow10(width),
        width >= 1,
    ensures
        padded_dec_chars(n, width).len() == width,
        forall|i: int|
            0 <= i < width ==> is_digit_char(#[trigger] padded_dec_chars(n, width)[i]),
{
    lemma_dec_chars_len(n, width);
    lemma_dec_chars_digits(n);
}

/// The two-character zero-padded rendering of a number below one hundred is
/// its tens digit followed by its ones digit.
pub proof fn lemma_two_digit_chars(n: nat)
    requires
        n < 100,
    ensures
        padded_dec_chars(n, 2) =~= seq![digit_char(n / 10), digit_char(n % 10)],
{
    if n < 10 {
        assert(dec_chars(n) =~= seq![digit_char(n)]);
    } else {
        assert(dec_chars(n / 10) =~= seq![digit_char(n / 10)]);
    }
}

/// The string of one decimal digit.
pub fn digit_str(d: u8) -> (r: &'static str)
    requires
        d < 10,
    ensures
        r@ =~= seq![digit_char(d as nat)],
{
    let r: &'static str = match d {
        0 => "0",
        1 => "1",
        2 => "2",
        3 => "3",
        4 => "4",
        5 => "5",
        6 => "6",
        7 => "7",
        8 => "8",
        _ => "9",
    };
    proof {
        reveal_strlit("0");
        reveal_strlit("1");
        reveal_strlit("2");
        reveal_strlit("3");
        reveal_strlit("4");
        reveal_strlit("5");
        reveal_strlit("6");
        reveal_strlit("7");
        reveal_strlit("8");
        reveal_strlit("9");
    }
    r
}

/// Renders `n` in decimal with no padding.
pub fn u64_to_dec_string(n: u64) -> (r: String)
    ensures
        r@ =~= dec_chars(n as nat),
    decreases n,
{
    if n < 10 {
        String::from_str(digit_str(n as u8))
    } else {
        let mut r = u64_to_dec_string(n / 10);
        r.append(digit_str((n % 10) as u8));
        proof {
            assert(r@ =~= dec_chars(n as nat));
        }
        r
    }
}

/// The number of characters in the decimal rendering of `n`.
pub fn dec_digit_count(n: u64) -> (c: usize)
    ensures
        c == dec_chars(n as nat).len(),
        1 <= c <= 20,
{
    proof {
        lemma_pow10_20();
        lemma_dec_chars_len(n as nat, 20);
    }
    let mut c: usize = 1;
    let mut m: u64 = n;
    while m >= 10
        invariant
            dec_chars(n as nat).len() == dec_chars(m as nat).len() + c - 1,
            c >= 1,
            dec_chars(m as nat).len() >= 1,
            dec_chars(n as nat).len() <= 20,
        decreases m,
    {
        proof {
            lemma_dec_chars_digits((m / 10) as nat);
        }
        m = m / 10;
        c = c + 1;
    }
    c
}

/// `pow10(20)` exceeds every `u64`.
proof fn lemma_pow10_20()
    ensures
        pow10(20) > u64::MAX,
{
    reveal_with_fuel(pow10, 21);
}

/// Renders `n` in decimal, left-padded with zeros to `width` characters.
pub fn u64_to_padded_string(n: u64, width: u8) -> (r: String)
    ensures
        r@ =~= padded_dec_chars(n as nat, width as nat),
{
    let count = dec_digit_count(n);
    let needed: usize = if (width as usize) > count {
        width as usize - count
    } else {
        0
    };
    let mut r = String::new();
    let mut i: usize = 0;
    while i < needed
        invariant
            i <= needed,
            r@ =~= zeros(i as nat),
        decreases needed - i,
    {
        r.append("0");
        proof {
            reveal_strlit("0");
            assert(r@ =~= zeros((i + 1) as nat));
        }
        i = i + 1;
    }
    let tail = u64_to_dec_string(n);
    r.append(tail.as_str());
    proof {
        assert(r@ =~= padded_dec_chars(n as nat, width as nat));
    }
    r
}

/// Ten to the power `e`, as a machine integer.
pub fn pow10_u64(e: u8) -> (r: u64)
    requires
        e <= 9,
    ensures
        r == pow10(e as nat),
{
    let r: u64 = match e {
        0 => 1,
        1 => 10,
        2 => 100,
        3 => 1_000,
        4 => 10_000,
        5 => 100_000,
        6 => 1_000_000,
        7 => 10_000_000,
        8 => 100_000_000,
        _ => 1_000_000_000,
    };
    proof {
        reveal_with_fuel(pow10, 10);
    }
    r
}

} // verus!
