//! Decimal text of exact quantities: digits, rounding to tenths, padding.

use vstd::arithmetic::div_mod::lemma_fundamental_div_mod;
use vstd::arithmetic::div_mod::lemma_fundamental_div_mod_converse;
use vstd::prelude::*;

verus! {

/// The character of the decimal digit `d`.
pub open spec fn digit(d: nat) -> char
    recommends
        d < 10,
{
    if d == 0 {
        '0'
    } else if d == 1 {
        '1'
    } else if d == 2 {
        '2'
    } else if d == 3 {
        '3'
    } else if d == 4 {
        '4'
    } else if d == 5 {
        '5'
    } else if d == 6 {
        '6'
    } else if d == 7 {
        '7'
    } else if d == 8 {
        '8'
    } else {
        '9'
    }
}

/// The decimal digits of `n`, most significant first, without leading zeros.
pub open spec fn digits(n: nat) -> Seq<char>
    decreases n,
{
    if n < 10 {
        seq![digit(n)]
    } else {
        digits(n / 10).push(digit(n % 10))
    }
}

/// `n / d` rounded to the nearest whole number; a tie goes to the even one.
pub open spec fn nearest_even(n: nat, d: nat) -> nat
    recommends
        d > 0,
{
    let q = n / d;
    let r = n % d;
    if 2 * r > d || (2 * r == d && q % 2 == 1) {
        q + 1
    } else {
        q
    }
}

/// `num / den` in tenths, rounded to the nearest tenth, ties to even.
pub open spec fn tenths(num: nat, den: nat) -> nat
    recommends
        den > 0,
{
    nearest_even(10 * num, den)
}

/// The text of `t` tenths with one decimal place: `853` reads `85.3`.
pub open spec fn fixed1(t: nat) -> Seq<char> {
    digits(t / 10) + seq!['.', digit(t % 10)]
}

/// `n` spaces.
pub open spec fn spaces(n: nat) -> Seq<char> {
    Seq::new(n, |i: int| ' ')
}

/// `s` with spaces in front of it until it is `width` characters long. A text
/// that is already as long stays as it is.
pub open spec fn padded(s: Seq<char>, width: nat) -> Seq<char> {
    if s.len() >= width {
        s
    } else {
        spaces((width - s.len()) as nat) + s
    }
}

/// The text of one decimal digit.
pub fn digit_str(d: u8) -> (text: &'static str)
    requires
        d < 10,
    ensures
        text@ == seq![digit(d as nat)],
{
    proof {
        reveal_strlit("0");
        reveal_strlit("1");
        reveal_strlit("2");
        reveal_strlit("3");
        reveal_strlit("4");
        reveal_strlit("5");
        reveal_strlit("6");
        reveal_strlit("7");
        reveal_strlit("8");
        reveal_strlit("9");
    }
    let text = if d == 0 {
        "0"
    } else if d == 1 {
        "1"
    } else if d == 2 {
        "2"
    } else if d == 3 {
        "3"
    } else if d == 4 {
        "4"
    } else if d == 5 {
        "5"
    } else if d == 6 {
        "6"
    } else if d == 7 {
        "7"
    } else if d == 8 {
        "8"
    } else {
        "9"
    };
    assert(text@ =~= seq![digit(d as nat)]);
    text
}

/// Writes `n` in decimal.
pub fn to_digits(n: u128) -> (text: String)
    ensures
        text@ == digits(n as nat),
    decreases n,
{
    if n < 10 {
        String::from_str(digit_str(n as u8))
    } else {
        let mut text = to_digits(n / 10);
        text.append(digit_str((n % 10) as u8));
        assert(text@ =~= digits((n / 10) as nat).push(digit((n % 10) as nat)));
        text
    }
}

/// Divides and rounds to the nearest whole number, ties to even.
pub fn round_nearest_even(n: u128, d: u128) -> (q: u128)
    requires
        d > 0,
    ensures
        q == nearest_even(n as nat, d as nat),
{
    let q = n / d;
    let r = n % d;
    if r > d - r || (r == d - r && q % 2 == 1) {
        proof {
            // Rounding up needs a remainder, so `d >= 2` and `q <= n / 2`.
            lemma_fundamental_div_mod(n as int, d as int);
            assert(d >= 2);
            assert(q * 2 <= d * q) by (nonlinear_arith)
                requires
                    d >= 2,
                    q >= 0,
            ;
        }
        q + 1
    } else {
        q
    }
}

/// Writes `t` tenths with one decimal place.
pub fn one_decimal(t: u128) -> (text: String)
    ensures
        text@ == fixed1(t as nat),
{
    proof {
        reveal_strlit(".");
    }
    let mut text = to_digits(t / 10);
    text.append(".");
    text.append(digit_str((t % 10) as u8));
    assert(text@ =~= fixed1(t as nat));
    text
}

/// Pads `s` on the left with spaces to `width` characters.
pub fn pad_left(s: &str, width: usize) -> (text: String)
    ensures
        text@ == padded(s@, width as nat),
{
    let len = s.unicode_len();
    let mut text = String::new();
    let mut i: usize = len;
    while i < width
        invariant
            len == s@.len(),
            len <= i,
            i == len || i <= width,
            text@ == spaces((i - len) as nat),
        decreases width - i,
    {
        proof {
            reveal_strlit(" ");
        }
        text.append(" ");
        i = i + 1;
        assert(text@ =~= spaces((i - len) as nat));
    }
    text.append(s);
    assert(text@ =~= padded(s@, width as nat));
    text
}

/// A whole number in tenths ends in `.0`.
pub proof fn lemma_fixed1_whole(n: nat)
    ensures
        tenths(n, 1) == 10 * n,
        fixed1(10 * n) == digits(n) + seq!['.', '0'],
{
    assert((10 * n) / 10 == n);
    assert((10 * n) % 10 == 0);
}

/// A quantity under a twentieth rounds to no tenth at all.
pub proof fn lemma_tenths_small(num: nat, den: nat)
    requires
        20 * num < den,
    ensures
        tenths(num, den) == 0,
{
    lemma_fundamental_div_mod_converse(10 * num as int, den as int, 0, 10 * num as int);
}

} // verus!
