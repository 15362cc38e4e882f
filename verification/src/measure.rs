//! Measurements as IEEE 754 binary64 numbers, held by their bit pattern.
//!
//! A pattern has a sign bit, eleven exponent bits and fifty-two fraction
//! bits. A finite pattern stands for the rational number
//! `± significand · 2^exponent`; the others are the two infinities and the
//! values that are not a number.

use vstd::prelude::*;
use vstd::arithmetic::div_mod::{lemma_small_mod, lemma_basic_div};
use vstd::arithmetic::power2::{
    pow2,
    lemma_pow2_pos,
    lemma_pow2_adds,
    lemma_pow2_unfold,
    lemma_pow2_strictly_increases,
    lemma2_to64,
    lemma2_to64_rest,
};
use crate::decimal::{
    decimal_text,
    digit_char,
    digits_value,
    canonical_digits,
    lemma_canonical_digits_text,
    digits_of,
    double_digits,
    digit_str,
    append_digits,
    append_decimal,
};

verus! {

/// The sign bit.
pub const SIGN_BIT: u64 = 0x8000_0000_0000_0000;

/// The pattern of positive infinity: all exponent bits, no fraction bit.
pub const INFINITY_BITS: u64 = 0x7ff0_0000_0000_0000;

/// Two to the power of 52: one more than the largest fraction.
pub const FRACTION_SPAN: u64 = 0x0010_0000_0000_0000;

/// A measured quantity.
#[derive(Clone, Copy, Debug, PartialEq, Eq, Structural)]
pub struct Measurement {
    /// The bit pattern of the number.
    pub bits: u64,
}

/// Whether `significand · 2^exponent` is less than `limit`.
pub open spec fn scaled_below(significand: int, exponent: int, limit: int) -> bool {
    if exponent >= 0 {
        significand * pow2(exponent as nat) < limit
    } else {
        significand < limit * pow2((-exponent) as nat)
    }
}

/// The quotient of `n` by `d`, rounded to the nearest integer; a quotient
/// half way between two integers goes to the even one.
pub open spec fn round_half_even(n: nat, d: nat) -> nat {
    let quotient = n / d;
    let rest = n % d;
    if 2 * rest > d || (2 * rest == d && quotient % 2 == 1) {
        quotient + 1
    } else {
        quotient
    }
}

impl Measurement {
    /// Whether the sign bit is set.
    pub open spec fn negative(self) -> bool {
        self.bits >= SIGN_BIT
    }

    /// The pattern without its sign bit.
    pub open spec fn magnitude_bits(self) -> nat {
        if self.bits >= SIGN_BIT {
            (self.bits - SIGN_BIT) as nat
        } else {
            self.bits as nat
        }
    }

    /// The eleven exponent bits, as a number.
    pub open spec fn exponent_field(self) -> nat {
        self.magnitude_bits() / (FRACTION_SPAN as nat)
    }

    /// The fifty-two fraction bits, as a number.
    pub open spec fn fraction_field(self) -> nat {
        self.magnitude_bits() % (FRACTION_SPAN as nat)
    }

    /// Whether the pattern is not a number.
    pub open spec fn is_nan(self) -> bool {
        self.magnitude_bits() > INFINITY_BITS
    }

    /// Whether the pattern is one of the two infinities.
    pub open spec fn is_infinite(self) -> bool {
        self.magnitude_bits() == INFINITY_BITS
    }

    /// Whether the pattern stands for a rational number.
    pub open spec fn is_finite(self) -> bool {
        self.magnitude_bits() < INFINITY_BITS
    }

    /// The significand of a finite pattern.
    pub open spec fn significand(self) -> nat {
        if self.exponent_field() == 0 {
            self.fraction_field()
        } else {
            FRACTION_SPAN as nat + self.fraction_field()
        }
    }

    /// The power of two that scales the significand of a finite pattern.
    pub open spec fn exponent(self) -> int {
        if self.exponent_field() == 0 {
            -1074
        } else {
            self.exponent_field() - 1075
        }
    }

    /// The significand with the sign of the number.
    pub open spec fn signed_significand(self) -> int {
        if self.negative() {
            -(self.significand() as int)
        } else {
            self.significand() as int
        }
    }

    /// Whether the number is less than `limit`, as the comparison `<` of
    /// binary64 has it: nothing that is not a number is less than anything,
    /// and only the negative infinity is less than an integer.
    pub open spec fn below(self, limit: int) -> bool {
        &&& !self.is_nan()
        &&& if self.is_infinite() {
            self.negative()
        } else {
            scaled_below(self.signed_significand(), self.exponent(), limit)
        }
    }

    /// The magnitude of a finite number in tenths, rounded to the nearest
    /// tenth; a magnitude half way between two tenths goes to the even one.
    pub open spec fn tenths(self) -> nat {
        if self.exponent() >= 0 {
            10 * self.significand() * pow2(self.exponent() as nat)
        } else {
            round_half_even(10 * self.significand(), pow2((-self.exponent()) as nat))
        }
    }

    /// The number in decimal notation with one digit after the point.
    ///
    /// What is not a number reads `NaN`. Everything else begins with `-`
    /// where the sign bit is set, also if the digits that follow are all
    /// zero. An infinity reads `inf`. A finite number is rounded to the
    /// nearest tenth and written out in full, however large it is.
    pub open spec fn one_decimal_text(self) -> Seq<char> {
        if self.is_nan() {
            "NaN"@
        } else {
            let sign = if self.negative() {
                "-"@
            } else {
                Seq::<char>::empty()
            };
            if self.is_infinite() {
                sign + "inf"@
            } else {
                sign + decimal_text(self.tenths() / 10) + "."@ + decimal_text(self.tenths() % 10)
            }
        }
    }

    /// The measurement with the given bit pattern.
    pub fn from_bits(bits: u64) -> (measurement: Measurement)
        ensures
            measurement.bits == bits,
    {
        Measurement { bits }
    }

    /// The bit pattern of the measurement.
    pub fn to_bits(self) -> (bits: u64)
        ensures
            bits == self.bits,
    {
        self.bits
    }
}

/// What is below a limit is below every larger limit.
pub proof fn lemma_below_is_monotonic(m: Measurement, low: int, high: int)
    requires
        low <= high,
        m.below(low),
    ensures
        m.below(high),
{
    if !m.is_infinite() {
        let e = m.exponent();
        if e < 0 {
            let scale = pow2((-e) as nat);
            lemma_pow2_pos((-e) as nat);
            assert(low * scale <= high * scale) by (nonlinear_arith)
                requires
                    low <= high,
                    scale > 0,
            ;
        }
    }
}

/// A negative number other than zero is below zero, and nothing else is.
pub proof fn lemma_below_zero(m: Measurement)
    ensures
        m.below(0) <==> (m.negative() && !m.is_nan() && m.magnitude_bits() != 0),
{
    if !m.is_nan() && !m.is_infinite() {
        let s = m.significand();
        let e = m.exponent();
        assert(s == 0 <==> m.magnitude_bits() == 0);
        if e >= 0 {
            let scale = pow2(e as nat);
            lemma_pow2_pos(e as nat);
            assert(s > 0 ==> s * scale > 0) by (nonlinear_arith)
                requires
                    scale > 0,
            ;
            assert(s == 0 ==> s * scale == 0) by (nonlinear_arith);
            assert((-(s as int)) * scale == -(s * scale)) by (nonlinear_arith);
        } else {
            assert(0 * pow2((-e) as nat) == 0);
        }
    }
}

/// A number whose multiple by at least `factor` stays under `factor · bound`
/// is under `bound`.
proof fn lemma_multiple_under(a: int, scale: int, factor: int, bound: int)
    requires
        scale >= factor,
        factor >= 1,
        bound > 0,
        a * scale < factor * bound,
    ensures
        a < bound,
{
    if a >= bound {
        assert(a * scale >= bound * scale) by (nonlinear_arith)
            requires
                a >= bound,
                scale >= 0,
        ;
        assert(bound * scale >= factor * bound) by (nonlinear_arith)
            requires
                scale >= factor,
                bound >= 0,
        ;
    }
}

/// A number at least `bound` has a multiple by at least `factor` that is at
/// least `factor · bound`.
proof fn lemma_multiple_over(a: int, scale: int, factor: int, bound: int)
    requires
        scale >= factor,
        factor >= 1,
        bound > 0,
        a >= bound,
    ensures
        a * scale >= factor * bound,
{
    assert(a * scale >= bound * scale) by (nonlinear_arith)
        requires
            a >= bound,
            scale >= 0,
    ;
    assert(bound * scale >= factor * bound) by (nonlinear_arith)
        requires
            scale >= factor,
            bound >= 0,
    ;
}

/// Among the patterns without a sign bit that are numbers, those below a
/// positive limit are exactly those that come before the limit's own
/// pattern, which has the exponent bits `field` and the fraction bits
/// `fraction`.
pub proof fn lemma_below_by_pattern(m: Measurement, limit: int, field: nat, fraction: nat)
    requires
        !m.negative(),
        !m.is_nan(),
        1 <= field <= 1074,
        fraction < FRACTION_SPAN,
        limit * pow2((1075 - field) as nat) == FRACTION_SPAN + fraction,
    ensures
        m.below(limit) <==> m.bits < field * FRACTION_SPAN + fraction,
{
    let span = FRACTION_SPAN as int;
    let e = m.exponent_field() as int;
    let f = m.fraction_field() as int;
    let s = m.significand() as int;
    let target = span + fraction;
    let drop = (1075 - field) as nat;
    lemma_pow2_pos(drop);
    lemma2_to64();
    assert(m.bits == e * span + f);
    if m.is_infinite() {
        assert(e == 2047);
    } else if e > field {
        assert(m.bits >= (field + 1) * span) by (nonlinear_arith)
            requires
                m.bits == e * span + f,
                e >= field + 1,
                f >= 0,
                span > 0,
        ;
        if e >= 1075 {
            let scale = pow2((e - 1075) as nat) as int;
            lemma_pow2_pos((e - 1075) as nat);
            lemma_pow2_strictly_increases(0, drop);
            lemma_multiple_under(limit, pow2(drop) as int, 2, span);
            lemma_multiple_over(s, scale, 1, span);
        } else {
            let near = (1075 - e) as nat;
            let gap = (e - field) as nat;
            lemma_pow2_adds(near, gap);
            lemma_pow2_strictly_increases(0, gap);
            assert(limit * (pow2(near) * pow2(gap)) == (limit * pow2(near)) * pow2(gap))
                by (nonlinear_arith);
            lemma_multiple_under(limit * pow2(near), pow2(gap) as int, 2, span);
        }
    } else if e == field {
        assert(m.bits < field * span + fraction <==> f < fraction);
    } else {
        assert(m.bits < field * span) by (nonlinear_arith)
            requires
                m.bits == e * span + f,
                e + 1 <= field,
                f < span,
                span > 0,
        ;
        if e == 0 {
            let gap = (field - 1) as nat;
            lemma_pow2_adds(drop, gap);
            lemma_pow2_pos(gap);
            assert(limit * (pow2(drop) * pow2(gap)) == (limit * pow2(drop)) * pow2(gap))
                by (nonlinear_arith);
            lemma_multiple_over(target, pow2(gap) as int, 1, span);
        } else {
            let far = (1075 - e) as nat;
            let gap = (field - e) as nat;
            lemma_pow2_adds(drop, gap);
            lemma_pow2_strictly_increases(0, gap);
            assert(limit * (pow2(drop) * pow2(gap)) == (limit * pow2(drop)) * pow2(gap))
                by (nonlinear_arith);
            lemma_multiple_over(target, pow2(gap) as int, 2, span);
        }
    }
}

/// Two to the power of `e`.
pub fn power_of_two(e: u64) -> (power: u64)
    requires
        e < 64,
    ensures
        power == pow2(e as nat),
{
    let mut power: u64 = 1;
    let mut done: u64 = 0;
    proof {
        lemma2_to64();
    }
    while done < e
        invariant
            done <= e < 64,
            power == pow2(done as nat),
        decreases e - done,
    {
        proof {
            lemma_pow2_unfold((done + 1) as nat);
            lemma_pow2_strictly_increases((done + 1) as nat, 64);
            lemma2_to64();
        }
        power = power * 2;
        done = done + 1;
    }
    power
}

/// The quotient of `n` by two to the power of `drop`, rounded to the
/// nearest integer, ties to even.
pub fn rounded_shift(n: u64, drop: u64) -> (rounded: u64)
    requires
        n < 0x4000_0000_0000_0000,
    ensures
        rounded == round_half_even(n as nat, pow2(drop as nat)),
{
    if drop >= 63 {
        proof {
            lemma2_to64_rest();
            if drop > 63 {
                lemma_pow2_strictly_increases(63, drop as nat);
            }
            let d = pow2(drop as nat);
            lemma_basic_div(n as int, d as int);
            lemma_small_mod(n as nat, d);
        }
        0
    } else {
        let divisor = power_of_two(drop);
        proof {
            lemma_pow2_pos(drop as nat);
            if drop < 62 {
                lemma_pow2_strictly_increases(drop as nat, 62);
            }
            lemma2_to64_rest();
        }
        let quotient = n / divisor;
        let rest = n % divisor;
        if 2 * rest > divisor || (2 * rest == divisor && quotient % 2 == 1) {
            quotient + 1
        } else {
            quotient
        }
    }
}

/// Appends to `text` the decimal notation of `significand · 2^shift`.
pub fn append_scaled(text: &mut String, significand: u64, shift: u64)
    ensures
        final(text)@ == old(text)@ + decimal_text(significand as nat * pow2(shift as nat)),
{
    let mut digits = digits_of(significand);
    let mut done: u64 = 0;
    proof {
        lemma2_to64();
    }
    while done < shift
        invariant
            done <= shift,
            canonical_digits(digits@),
            digits_value(digits@) == significand as nat * pow2(done as nat),
        decreases shift - done,
    {
        proof {
            lemma_pow2_unfold((done + 1) as nat);
            assert(2 * (significand as nat * pow2(done as nat)) == significand as nat * (2
                * pow2(done as nat))) by (nonlinear_arith);
        }
        digits = double_digits(&digits);
        done = done + 1;
    }
    proof {
        lemma_canonical_digits_text(digits@);
    }
    append_digits(text, &digits);
}

/// Appends to `text` the measurement in decimal notation with one digit
/// after the point.
pub fn append_one_decimal(text: &mut String, m: Measurement)
    ensures
        final(text)@ == old(text)@ + m.one_decimal_text(),
{
    let ghost before = text@;
    let negative = m.bits >= SIGN_BIT;
    let magnitude: u64 = if negative {
        m.bits - SIGN_BIT
    } else {
        m.bits
    };
    if magnitude > INFINITY_BITS {
        text.append("NaN");
        return ;
    }
    if negative {
        text.append("-");
    }
    let ghost sign = if negative {
        "-"@
    } else {
        Seq::<char>::empty()
    };
    assert(text@ =~= before + sign);
    if magnitude == INFINITY_BITS {
        text.append("inf");
        assert(text@ =~= before + (sign + "inf"@));
        return ;
    }
    let field: u64 = magnitude / FRACTION_SPAN;
    let fraction: u64 = magnitude % FRACTION_SPAN;
    let significand: u64 = if field == 0 {
        fraction
    } else {
        FRACTION_SPAN + fraction
    };
    assert(field <= 2046);
    assert(significand == m.significand());
    if field >= 1075 {
        let shift: u64 = field - 1075;
        let ghost whole = significand as nat * pow2(shift as nat);
        proof {
            assert(m.tenths() == 10 * whole) by (nonlinear_arith)
                requires
                    m.tenths() == 10 * (significand as nat) * pow2(shift as nat),
                    whole == significand as nat * pow2(shift as nat),
            ;
            assert(m.tenths() / 10 == whole);
            assert(m.tenths() % 10 == 0);
            reveal_strlit(".0");
            reveal_strlit(".");
            assert(decimal_text(0) =~= seq!['0']);
            assert(".0"@ =~= "."@ + decimal_text(0));
        }
        append_scaled(text, significand, shift);
        text.append(".0");
        assert(text@ =~= before + (sign + decimal_text(whole) + "."@ + decimal_text(0)));
    } else {
        let drop: u64 = if field == 0 {
            1074
        } else {
            1075 - field
        };
        assert(drop as int == -m.exponent());
        let tenths: u64 = rounded_shift(10 * significand, drop);
        assert(tenths == m.tenths());
        append_decimal(text, tenths / 10);
        text.append(".");
        text.append(digit_str((tenths % 10) as u8));
        proof {
            let last = (tenths % 10) as nat;
            assert(decimal_text(last) =~= seq![digit_char(last)]);
            assert(text@ =~= before + (sign + decimal_text((tenths / 10) as nat) + "."@
                + decimal_text(last)));
        }
    }
}

/// The measurement in decimal notation with one digit after the point.
pub fn one_decimal(m: Measurement) -> (text: String)
    ensures
        text@ == m.one_decimal_text(),
{
    let mut text = String::new();
    append_one_decimal(&mut text, m);
    assert(text@ =~= m.one_decimal_text());
    text
}

} // verus!
