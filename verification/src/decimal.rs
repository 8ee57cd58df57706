//! Decimal numbers and their text.
//!
//! A [`Decimal`] is a sign, a coefficient and a power of ten. Its text is the
//! plain positional numeral of that number: no exponent notation, no digit
//! grouping, a fraction part exactly as long as the negative exponent asks.

use vstd::prelude::*;
use vstd::string::StrSliceExecFns;
use vstd::string::StringExecFns;
use crate::decimal::parse::lemma_fraction_shape;
use crate::text::decimal_text;
use crate::text::digit_str;
use crate::text::is_digit;
use crate::text::lemma_decimal_text_digits;
use crate::text::render_unsigned;
use crate::text::write_zeros;
use crate::text::zeros;
use crate::text::Render;

pub mod parse;

verus! {

/// Ten to the power `k`.
pub open spec fn pow10(k: nat) -> nat
    decreases k,
{
    if k == 0 {
        1
    } else {
        10 * pow10((k - 1) as nat)
    }
}

/// Powers of ten grow with the exponent.
pub proof fn lemma_pow10_increases(a: nat, b: nat)
    requires
        a <= b,
    ensures
        1 <= pow10(a) <= pow10(b),
    decreases b,
{
    if b == 0 {
    } else if a == b {
        lemma_pow10_increases((a - 1) as nat, (b - 1) as nat);
    } else {
        lemma_pow10_increases(a, (b - 1) as nat);
    }
}

/// The largest power of ten that a `u64` holds is the nineteenth.
pub proof fn lemma_pow10_values()
    ensures
        pow10(0) == 1,
        pow10(1) == 10,
        pow10(19) == 10_000_000_000_000_000_000,
        pow10(20) > u64::MAX,
{
    reveal_with_fuel(pow10, 21);
}

/// Ten to the power `k`, for the powers that fit.
pub fn pow10_u64(k: u32) -> (p: u64)
    requires
        k <= 19,
    ensures
        p == pow10(k as nat),
{
    let mut p: u64 = 1;
    let mut i: u32 = 0;
    while i < k
        invariant
            i <= k <= 19,
            p == pow10(i as nat),
        decreases k - i,
    {
        proof {
            lemma_pow10_increases((i + 1) as nat, 19);
            lemma_pow10_values();
        }
        p = p * 10;
        i = i + 1;
    }
    p
}

/// The number `(-1)^negative * digits * 10^exponent`.
#[derive(Clone, Copy, Debug, PartialEq, Eq)]
pub struct Decimal {
    /// Whether the number carries a minus sign. Zero may carry one.
    pub negative: bool,
    /// The coefficient.
    pub digits: u64,
    /// The power of ten by which the coefficient is scaled.
    pub exponent: i32,
}

/// The numeral of `digits * 10^exponent`, unsigned.
///
/// With an exponent of zero or more it is the integer's numeral. With a
/// negative exponent `-k` it has a point followed by exactly `k` digits, and
/// at least one digit before the point.
pub open spec fn magnitude_text(digits: nat, exponent: int) -> Seq<char> {
    if exponent >= 0 {
        if digits == 0 {
            decimal_text(0)
        } else {
            decimal_text(digits) + zeros(exponent as nat)
        }
    } else {
        let k = -exponent;
        let numeral = decimal_text(digits);
        let padded = if numeral.len() > k {
            numeral
        } else {
            zeros((k + 1 - numeral.len()) as nat) + numeral
        };
        padded.subrange(0, padded.len() - k) + seq!['.'] + padded.subrange(
            padded.len() - k,
            padded.len() as int,
        )
    }
}

/// The sign in front of a numeral.
pub open spec fn sign_text(negative: bool) -> Seq<char> {
    if negative {
        seq!['-']
    } else {
        Seq::empty()
    }
}

/// `digits * 10^(-drop)` rounded to an integer, ties to the even neighbour.
pub open spec fn round_half_even(digits: nat, drop: nat) -> nat {
    let unit = pow10(drop);
    let quotient = digits / unit;
    let rest = digits % unit;
    if 2 * rest > unit || (2 * rest == unit && quotient % 2 == 1) {
        quotient + 1
    } else {
        quotient
    }
}

impl Decimal {
    /// The number `(-1)^negative * digits * 10^exponent`.
    pub fn new(negative: bool, digits: u64, exponent: i32) -> (d: Decimal)
        ensures
            d == (Decimal { negative, digits, exponent }),
    {
        Decimal { negative, digits, exponent }
    }

    /// Zero, without a sign.
    pub open spec fn zero_value() -> Decimal {
        Decimal { negative: false, digits: 0, exponent: 0 }
    }

    /// Returns zero, without a sign.
    pub fn zero() -> (d: Decimal)
        ensures
            d == Decimal::zero_value(),
    {
        Decimal { negative: false, digits: 0, exponent: 0 }
    }

    /// Whether the number lies between zero and one, both included.
    /// Zero with a minus sign counts as zero.
    pub open spec fn in_unit_interval(self) -> bool {
        self.digits == 0 || (!self.negative && if self.exponent >= 0 {
            self.digits * pow10(self.exponent as nat) <= 1
        } else {
            self.digits <= pow10((-self.exponent) as nat)
        })
    }

    /// Decides [`Decimal::in_unit_interval`].
    pub fn is_in_unit_interval(&self) -> (b: bool)
        ensures
            b == self.in_unit_interval(),
    {
        if self.digits == 0 {
            return true;
        }
        if self.negative {
            return false;
        }
        if self.exponent >= 0 {
            proof {
                lemma_pow10_values();
                let scale = pow10(self.exponent as nat);
                if self.exponent >= 1 {
                    lemma_pow10_increases(1, self.exponent as nat);
                    assert(self.digits * scale >= 10) by (nonlinear_arith)
                        requires
                            self.digits >= 1,
                            scale >= 10,
                    ;
                } else {
                    assert(self.digits * scale == self.digits) by (nonlinear_arith)
                        requires
                            scale == 1,
                    ;
                }
            }
            self.digits == 1 && self.exponent == 0
        } else if self.exponent <= -20 {
            proof {
                lemma_pow10_values();
                lemma_pow10_increases(20, (-self.exponent) as nat);
            }
            true
        } else {
            let k: u32 = (-self.exponent) as u32;
            self.digits <= pow10_u64(k)
        }
    }

    /// The numeral of the number rounded to tenths, ties to even: it always
    /// has exactly one digit after the point. The sign is kept as it is, also
    /// where the rounded number is zero.
    pub open spec fn tenths_text(self) -> Seq<char> {
        let magnitude = if self.exponent >= 0 {
            magnitude_text(self.digits as nat, self.exponent as int) + seq!['.', '0']
        } else if self.exponent == -1 {
            magnitude_text(self.digits as nat, -1)
        } else {
            magnitude_text(round_half_even(self.digits as nat, (-self.exponent - 1) as nat), -1)
        };
        sign_text(self.negative) + magnitude
    }

    /// Returns the numeral of the number rounded to tenths.
    pub fn render_tenths(&self) -> (out: String)
        ensures
            out@ == self.tenths_text(),
    {
        let mut out = String::new();
        write_sign(&mut out, self.negative);
        assert(out@ =~= sign_text(self.negative));
        if self.exponent >= 0 {
            write_magnitude(&mut out, self.digits, self.exponent);
            proof {
                reveal_strlit(".0");
            }
            out.append(".0");
            assert(out@ =~= self.tenths_text());
        } else if self.exponent == -1 {
            write_magnitude(&mut out, self.digits, -1);
        } else {
            let tenths = round_to_tenths(self.digits, self.exponent);
            write_magnitude(&mut out, tenths, -1);
        }
        out
    }
}

/// Rounding picks a nearest integer: the rounded number, scaled back, is
/// at most half a unit away from the number, and where two integers are
/// equally near, it is the even one.
pub proof fn lemma_round_half_even_nearest(digits: nat, drop: nat)
    ensures
        ({
            let unit = pow10(drop) as int;
            let rounded = round_half_even(digits, drop) as int;
            &&& 2 * (rounded * unit - digits) <= unit
            &&& 2 * (digits - rounded * unit) <= unit
            &&& 2 * (rounded * unit - digits) == unit || 2 * (digits - rounded * unit) == unit
                ==> rounded % 2 == 0
        }),
{
    let unit = pow10(drop) as int;
    lemma_pow10_increases(0, drop);
    let quotient = digits as int / unit;
    let rest = digits as int % unit;
    vstd::arithmetic::div_mod::lemma_fundamental_div_mod(digits as int, unit);
    assert(digits == unit * quotient + rest);
    assert(0 <= rest < unit);
    assert((quotient + 1) * unit == quotient * unit + unit) by (nonlinear_arith);
    assert(unit * quotient == quotient * unit) by (nonlinear_arith);
}

/// A number rounded to tenths is written with exactly one digit behind the
/// point, whatever its magnitude.
pub proof fn lemma_tenths_text_shape(d: Decimal)
    ensures
        d.tenths_text().len() >= 3,
        d.tenths_text()[d.tenths_text().len() - 2] == '.',
        is_digit(d.tenths_text()[d.tenths_text().len() - 1]),
{
    let sign = sign_text(d.negative);
    let text = d.tenths_text();
    if d.exponent >= 0 {
        let magnitude = magnitude_text(d.digits as nat, d.exponent as int);
        lemma_decimal_text_digits(d.digits as nat);
        assert(magnitude.len() >= 1);
        assert(text =~= sign + magnitude + seq!['.', '0']);
        assert(text[text.len() - 2] == '.');
        assert(text[text.len() - 1] == '0');
    } else {
        let tenths = if d.exponent == -1 {
            d.digits as nat
        } else {
            round_half_even(d.digits as nat, (-d.exponent - 1) as nat)
        };
        let magnitude = magnitude_text(tenths, -1);
        lemma_fraction_shape(tenths, -1);
        assert(text =~= sign + magnitude);
        assert(text[text.len() - 2] == magnitude[magnitude.len() - 2]);
        assert(text[text.len() - 1] == magnitude[magnitude.len() - 1]);
    }
}

/// `digits * 10^exponent` in tenths, rounded half to even, for an exponent
/// below minus one.
fn round_to_tenths(digits: u64, exponent: i32) -> (tenths: u64)
    requires
        exponent < -1,
    ensures
        tenths == round_half_even(digits as nat, (-exponent - 1) as nat),
{
    if exponent < -20 {
        proof {
            lemma_pow10_values();
            lemma_pow10_increases(20, (-exponent - 1) as nat);
            let unit = pow10((-exponent - 1) as nat);
            assert(digits as nat / unit == 0 && digits as nat % unit == digits) by (nonlinear_arith)
                requires
                    digits < unit,
            ;
        }
        return 0;
    }
    let drop: u32 = (-exponent - 1) as u32;
    proof {
        lemma_pow10_values();
        lemma_pow10_increases(1, drop as nat);
    }
    let unit = pow10_u64(drop);
    let quotient = digits / unit;
    let rest = digits % unit;
    proof {
        assert(quotient <= digits / 10) by (nonlinear_arith)
            requires
                quotient == digits / unit,
                unit >= 10,
        ;
    }
    if rest > unit - rest || (rest == unit - rest && quotient % 2 == 1) {
        quotient + 1
    } else {
        quotient
    }
}

/// Appends a minus sign to `out` when `negative` holds.
fn write_sign(out: &mut String, negative: bool)
    ensures
        final(out)@ == old(out)@ + sign_text(negative),
{
    if negative {
        proof {
            reveal_strlit("-");
        }
        out.append("-");
        assert(out@ =~= old(out)@ + sign_text(negative));
    } else {
        assert(out@ =~= old(out)@ + sign_text(negative));
    }
}

/// Appends the unsigned numeral of `digits * 10^exponent` to `out`.
fn write_magnitude(out: &mut String, digits: u64, exponent: i32)
    ensures
        final(out)@ == old(out)@ + magnitude_text(digits as nat, exponent as int),
{
    let numeral = render_unsigned(digits);
    proof {
        lemma_decimal_text_digits(digits as nat);
    }
    if exponent >= 0 {
        out.append(numeral.as_str());
        if digits != 0 {
            write_zeros(out, exponent as usize);
            assert(out@ =~= old(out)@ + magnitude_text(digits as nat, exponent as int));
        }
    } else {
        let k: u64 = (-(exponent as i64)) as u64;
        let len = numeral.as_str().unicode_len();
        proof {
            reveal_strlit(".");
        }
        let ghost text = decimal_text(digits as nat);
        if len as u64 > k {
            let split: usize = len - k as usize;
            out.append(numeral.as_str().substring_char(0, split));
            out.append(".");
            out.append(numeral.as_str().substring_char(split, len));
            assert(out@ =~= old(out)@ + magnitude_text(digits as nat, exponent as int));
        } else {
            let fill: usize = (k - len as u64) as usize;
            out.append(digit_str(0));
            out.append(".");
            write_zeros(out, fill);
            out.append(numeral.as_str());
            proof {
                let padded = zeros((k + 1 - text.len()) as nat) + text;
                assert(padded.subrange(0, padded.len() - k) =~= seq!['0']);
                assert(padded.subrange(padded.len() - k, padded.len() as int) =~= zeros(
                    fill as nat,
                ) + text);
                assert(out@ =~= old(out)@ + magnitude_text(digits as nat, exponent as int));
            }
        }
    }
}

impl Render for Decimal {
    /// The sign, then the plain numeral of the magnitude.
    open spec fn text(&self) -> Seq<char> {
        sign_text(self.negative) + magnitude_text(self.digits as nat, self.exponent as int)
    }

    fn render(&self) -> (out: String) {
        let mut out = String::new();
        write_sign(&mut out, self.negative);
        write_magnitude(&mut out, self.digits, self.exponent);
        assert(out@ =~= self.text());
        out
    }
}

impl Default for Decimal {
    fn default() -> (d: Decimal)
        ensures
            d == Decimal::zero_value(),
    {
        Decimal::zero()
    }
}

} // verus!
