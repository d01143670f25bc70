//! Single-precision binary readings, taken by their 32-bit pattern and read
//! exactly: one sign bit, eight exponent bits, twenty-three fraction bits.

use crate::decimal::fixed1;
use crate::decimal::lemma_fixed1_whole;
use crate::decimal::lemma_tenths_small;
use crate::decimal::one_decimal;
use crate::decimal::round_nearest_even;
use crate::decimal::tenths;
use crate::decimal::to_digits;
use vstd::arithmetic::power2::lemma2_to64;
use vstd::arithmetic::power2::lemma2_to64_rest;
use vstd::arithmetic::power2::lemma_pow2_adds;
use vstd::arithmetic::power2::lemma_pow2_pos;
use vstd::arithmetic::power2::lemma_pow2_strictly_increases;
use vstd::arithmetic::power2::lemma_pow2_unfold;
use vstd::arithmetic::power2::pow2;
use vstd::prelude::*;

verus! {

/// A single-precision reading, held as its bit pattern.
#[derive(Debug, Clone, Copy, PartialEq, Eq, Structural)]
pub struct Single {
    pub bits: u32,
}

impl Single {
    /// Whether the sign bit is set.
    pub open spec fn negative(self) -> bool {
        self.bits >= 0x8000_0000
    }

    /// The eight exponent bits.
    pub open spec fn exponent(self) -> nat {
        ((self.bits as nat) / 0x80_0000) % 0x100
    }

    /// The twenty-three fraction bits.
    pub open spec fn fraction(self) -> nat {
        (self.bits as nat) % 0x80_0000
    }

    /// Whether the pattern stands for no number.
    pub open spec fn is_nan(self) -> bool {
        self.exponent() == 255 && self.fraction() != 0
    }

    /// Whether the pattern stands for an infinity.
    pub open spec fn is_infinite(self) -> bool {
        self.exponent() == 255 && self.fraction() == 0
    }

    /// The significand of a finite pattern: the fraction bits, with the
    /// hidden bit in front of them unless the exponent bits are all zero.
    pub open spec fn significand(self) -> nat {
        if self.exponent() == 0 {
            self.fraction()
        } else {
            0x80_0000 + self.fraction()
        }
    }

    /// The power of two that scales the significand: the magnitude of a
    /// finite pattern is `significand * 2^scale`.
    pub open spec fn scale(self) -> int {
        if self.exponent() == 0 {
            -149
        } else {
            self.exponent() - 150
        }
    }

    /// The magnitude of a finite pattern is `numerator / denominator`.
    pub open spec fn numerator(self) -> nat {
        if self.scale() >= 0 {
            self.significand() * pow2(self.scale() as nat)
        } else {
            self.significand()
        }
    }

    /// The magnitude of a finite pattern is `numerator / denominator`.
    pub open spec fn denominator(self) -> nat {
        if self.scale() >= 0 {
            1
        } else {
            pow2((-self.scale()) as nat)
        }
    }

    /// Whether the reading is greater than the whole number `n`. No number
    /// is not, and a negative reading is not.
    pub open spec fn exceeds(self, n: nat) -> bool {
        &&& !self.is_nan()
        &&& !self.negative()
        &&& self.is_infinite() || self.numerator() > n * self.denominator()
    }

    /// The reading with one decimal place, rounded to the nearest tenth,
    /// ties to even; `-` in front where the sign bit is set; `inf` for an
    /// infinity and `NaN` for no number.
    pub open spec fn text(self) -> Seq<char> {
        if self.is_nan() {
            "NaN"@
        } else {
            let sign = if self.negative() {
                seq!['-']
            } else {
                Seq::<char>::empty()
            };
            let magnitude = if self.is_infinite() {
                "inf"@
            } else {
                fixed1(tenths(self.numerator(), self.denominator()))
            };
            sign + magnitude
        }
    }

    /// The reading with bit pattern `bits`.
    pub fn from_bits(bits: u32) -> (reading: Single)
        ensures
            reading.bits == bits,
    {
        Single { bits }
    }

    /// Whether the reading is greater than the whole number `n`.
    pub fn is_above(self, n: u32) -> (above: bool)
        ensures
            above == self.exceeds(n as nat),
    {
        let e: u32 = (self.bits / 0x80_0000) % 0x100;
        let f: u32 = self.bits % 0x80_0000;
        if e == 255 {
            f == 0 && self.bits < 0x8000_0000
        } else if self.bits >= 0x8000_0000 {
            false
        } else if e >= 150 {
            let whole = whole_part(self);
            whole > n as u128
        } else {
            let (sig, k) = fractional_parts(self);
            if k >= 24 {
                proof {
                    lemma2_to64();
                    if k > 24 {
                        lemma_pow2_strictly_increases(24, k as nat);
                    }
                    assert(n >= 1 ==> n * pow2(k as nat) >= pow2(k as nat)) by (nonlinear_arith);
                }
                n == 0 && sig > 0
            } else {
                let den = power_of_two(k);
                proof {
                    lemma2_to64();
                    lemma_pow2_strictly_increases(k as nat, 24);
                    assert(n * den < 0x1_0000_0000 * 0x100_0000) by (nonlinear_arith)
                        requires
                            n < 0x1_0000_0000,
                            den < 0x100_0000,
                    ;
                }
                sig as u128 > n as u128 * den
            }
        }
    }

    /// Writes the reading with one decimal place.
    pub fn to_text(self) -> (text: String)
        ensures
            text@ == self.text(),
    {
        let e: u32 = (self.bits / 0x80_0000) % 0x100;
        let f: u32 = self.bits % 0x80_0000;
        if e == 255 && f != 0 {
            return String::from_str("NaN");
        }
        let mut text = if self.bits >= 0x8000_0000 {
            proof {
                reveal_strlit("-");
            }
            String::from_str("-")
        } else {
            String::new()
        };
        let ghost sign = text@;
        assert(sign =~= if self.negative() {
            seq!['-']
        } else {
            Seq::<char>::empty()
        });
        if e == 255 {
            text.append("inf");
        } else if e >= 150 {
            let whole = whole_part(self);
            let digits = to_digits(whole);
            proof {
                lemma_fixed1_whole(whole as nat);
                reveal_strlit(".0");
                assert(".0"@ =~= seq!['.', '0']);
            }
            text.append(digits.as_str());
            text.append(".0");
            assert(text@ =~= sign + fixed1(tenths(self.numerator(), self.denominator())));
        } else {
            let (sig, k) = fractional_parts(self);
            let t: u128 = if k >= 30 {
                proof {
                    lemma2_to64();
                    if k > 30 {
                        lemma_pow2_strictly_increases(30, k as nat);
                    }
                    lemma_tenths_small(sig as nat, pow2(k as nat));
                }
                0
            } else {
                let den = power_of_two(k);
                proof {
                    lemma_pow2_pos(k as nat);
                }
                round_nearest_even(10 * (sig as u128), den)
            };
            let digits = one_decimal(t);
            text.append(digits.as_str());
        }
        text
    }
}

/// `2^k`.
fn power_of_two(k: u32) -> (p: u128)
    requires
        k <= 104,
    ensures
        p == pow2(k as nat),
        p <= 0x100_0000_0000_0000_0000_0000_0000,
{
    let mut p: u128 = 1;
    let mut i: u32 = 0;
    proof {
        lemma2_to64();
        lemma_pow2_104();
    }
    while i < k
        invariant
            i <= k,
            k <= 104,
            p == pow2(i as nat),
            pow2(104) == 0x100_0000_0000_0000_0000_0000_0000,
        decreases k - i,
    {
        proof {
            lemma_pow2_unfold((i + 1) as nat);
            if i + 1 < 104 {
                lemma_pow2_strictly_increases((i + 1) as nat, 104);
            }
        }
        p = p * 2;
        i = i + 1;
    }
    proof {
        if k < 104 {
            lemma_pow2_strictly_increases(k as nat, 104);
        }
    }
    p
}

proof fn lemma_pow2_104()
    ensures
        pow2(104) == 0x100_0000_0000_0000_0000_0000_0000,
{
    lemma2_to64();
    lemma2_to64_rest();
    lemma_pow2_adds(64, 40);
    assert(0x1_0000_0000_0000_0000 * 0x100_0000_0000 == 0x100_0000_0000_0000_0000_0000_0000)
        by (nonlinear_arith);
}

/// The magnitude of a finite reading that has no fractional bits.
fn whole_part(reading: Single) -> (whole: u128)
    requires
        150 <= reading.exponent() < 255,
    ensures
        whole == reading.numerator(),
        reading.denominator() == 1,
{
    let e: u32 = (reading.bits / 0x80_0000) % 0x100;
    let f: u32 = reading.bits % 0x80_0000;
    let sig: u128 = f as u128 + 0x80_0000;
    let p = power_of_two(e - 150);
    assert(sig * p < 0x100_0000 * 0x100_0000_0000_0000_0000_0000_0000) by (nonlinear_arith)
        requires
            sig < 0x100_0000,
            p <= 0x100_0000_0000_0000_0000_0000_0000,
    ;
    sig * p
}

/// The significand of a finite reading below `2^24`, and the `k` for which
/// its magnitude is `significand / 2^k`.
fn fractional_parts(reading: Single) -> (parts: (u32, u32))
    requires
        reading.exponent() < 150,
    ensures
        parts.0 == reading.significand(),
        parts.0 < 0x100_0000,
        1 <= parts.1 <= 149,
        reading.numerator() == parts.0,
        reading.denominator() == pow2(parts.1 as nat),
{
    let e: u32 = (reading.bits / 0x80_0000) % 0x100;
    let f: u32 = reading.bits % 0x80_0000;
    if e == 0 {
        (f, 149)
    } else {
        (f + 0x80_0000, 150 - e)
    }
}

} // verus!
