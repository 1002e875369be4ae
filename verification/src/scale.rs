//! Multiplying a length by a scale factor the way single-precision arithmetic does.
//!
//! A scale factor is a single-precision number (IEEE 754 binary32), held here by its bit
//! pattern. A length is first converted to single precision, then multiplied by the factor in
//! single precision, and the product is cut to a whole number. Conversion and multiplication
//! both round to the nearest number that single precision can hold, and to the one with an
//! even last digit where two are equally near; cutting drops the fraction and stops at the
//! largest length.
//!
//! Every finite single-precision number is a whole multiple of 2^-149, so the model counts in
//! that unit and needs whole numbers only. In that unit, single precision holds every whole
//! number below 2^24 and, above, the numbers with at most 24 significant binary digits. A
//! product too large for single precision becomes infinity there and a number of 2^128 or
//! more here; cut to a length, both give the largest length.

use vstd::arithmetic::div_mod::{
    lemma_div_denominator, lemma_fundamental_div_mod, lemma_fundamental_div_mod_converse,
};
use vstd::arithmetic::power2::{lemma_pow2_adds, lemma_pow2_pos, lemma_pow2_unfold, pow2};
use vstd::prelude::*;

verus! {

/// The first whole number that has more binary digits than a single-precision number keeps:
/// 2^24.
pub const PRECISION_LIMIT: u64 = 0x100_0000;

/// The spacing of the numbers that single precision can hold around `n`: 1 below 2^24, and
/// twice as much every time `n` doubles from there.
pub open spec fn quantum(n: nat) -> nat
    decreases n,
{
    if n < PRECISION_LIMIT {
        1
    } else {
        2 * quantum(n / 2)
    }
}

/// The multiple of `step` nearest to `n`; of two that are equally near, the even multiple.
pub open spec fn round_half_even(n: nat, step: nat) -> nat {
    let below = n / step;
    let rest = n % step;
    if 2 * rest < step || (2 * rest == step && below % 2 == 0) {
        below * step
    } else {
        (below + 1) * step
    }
}

/// `n` rounded to the nearest number with at most 24 significant binary digits.
pub open spec fn rounded(n: nat) -> nat {
    round_half_even(n, quantum(n))
}

/// The spacing is at least 1 and no more than the number itself, unless that is 0.
pub proof fn lemma_quantum_bounds(n: nat)
    ensures
        1 <= quantum(n),
        n > 0 ==> quantum(n) <= n,
        n < PRECISION_LIMIT ==> quantum(n) == 1,
    decreases n,
{
    if n >= PRECISION_LIMIT {
        lemma_quantum_bounds(n / 2);
    }
}

/// Rounding moves a number by less than its spacing, so it never doubles it.
pub proof fn lemma_rounded_bounds(n: nat)
    ensures
        rounded(n) <= 2 * n,
        n < PRECISION_LIMIT ==> rounded(n) == n,
{
    lemma_quantum_bounds(n);
    let step = quantum(n);
    lemma_fundamental_div_mod(n as int, step as int);
    let below = n / step;
    assert((below + 1) * step == below * step + step) by (nonlinear_arith);
    assert(step * below == below * step) by (nonlinear_arith);
    if n < PRECISION_LIMIT {
        assert(n % 1 == 0);
        assert(n / 1 == n);
        assert(below * 1 == below) by (nonlinear_arith);
    }
}

/// Rounds `n` to the nearest number with at most 24 significant binary digits.
fn round_to_precision(n: u64) -> (r: u64)
    requires
        n < 0x4000_0000_0000_0000,
    ensures
        r == rounded(n as nat),
{
    let mut step: u64 = 1;
    let mut rest: u64 = n;
    while rest >= PRECISION_LIMIT
        invariant
            n < 0x4000_0000_0000_0000,
            1 <= step,
            step * rest <= n,
            rest == n / step,
            quantum(n as nat) == step * quantum(rest as nat),
        decreases rest,
    {
        proof {
            lemma_div_denominator(n as int, step as int, 2);
            assert((step * 2) * (rest / 2) <= step * rest) by (nonlinear_arith)
                requires
                    step >= 1,
                    2 * (rest / 2) <= rest,
            ;
            assert(step * 0x100_0000 <= step * rest) by (nonlinear_arith)
                requires
                    step >= 1,
                    rest >= 0x100_0000,
            ;
            assert(step * (2 * quantum((rest / 2) as nat)) == (step * 2) * quantum(
                (rest / 2) as nat,
            )) by (nonlinear_arith);
        }
        rest = rest / 2;
        step = step * 2;
    }
    proof {
        lemma_quantum_bounds(n as nat);
        lemma_rounded_bounds(n as nat);
        lemma_fundamental_div_mod(n as int, step as int);
        assert(step * 1 == step) by (nonlinear_arith);
        assert((rest + 1) * step == rest * step + step) by (nonlinear_arith);
        assert(step * rest == rest * step) by (nonlinear_arith);
    }
    let remainder: u64 = n % step;
    if 2 * remainder < step || (2 * remainder == step && rest % 2 == 0) {
        rest * step
    } else {
        (rest + 1) * step
    }
}

/// Doubling a number doubles what it rounds to: rounding keeps significant digits, wherever
/// the binary point stands.
pub proof fn lemma_rounded_doubles(n: nat)
    ensures
        rounded(2 * n) == 2 * rounded(n),
{
    lemma_quantum_bounds(n);
    lemma_quantum_bounds(2 * n);
    lemma_rounded_bounds(n);
    let step = quantum(n);
    let below = n / step;
    let rest = n % step;
    lemma_fundamental_div_mod(n as int, step as int);
    assert((2 * n) / 2 == n);
    if 2 * n < PRECISION_LIMIT {
        lemma_rounded_bounds(2 * n);
    } else if n < PRECISION_LIMIT {
        assert(quantum(2 * n) == 2);
        assert(rounded(n) == n);
        lemma_fundamental_div_mod_converse((2 * n) as int, 2, n as int, 0);
        assert(n * 2 == 2 * n);
    } else {
        assert(quantum(2 * n) == 2 * step);
        assert(2 * n == below * (2 * step) + 2 * rest) by (nonlinear_arith)
            requires
                n == step * below + rest,
        ;
        lemma_fundamental_div_mod_converse(
            (2 * n) as int,
            (2 * step) as int,
            below as int,
            (2 * rest) as int,
        );
        assert(below * (2 * step) == 2 * (below * step)) by (nonlinear_arith);
        assert((below + 1) * (2 * step) == 2 * ((below + 1) * step)) by (nonlinear_arith);
    }
}

/// Multiplying a number by a power of two multiplies what it rounds to by the same power.
pub proof fn lemma_rounded_scales(n: nat, k: nat)
    ensures
        rounded(n * pow2(k)) == rounded(n) * pow2(k),
    decreases k,
{
    if k == 0 {
        assert(pow2(0) == 1) by {
            vstd::arithmetic::power2::lemma2_to64();
        }
        assert(n * 1 == n) by (nonlinear_arith);
        assert(rounded(n) * 1 == rounded(n)) by (nonlinear_arith);
    } else {
        let half = pow2((k - 1) as nat);
        lemma_pow2_unfold(k);
        lemma_rounded_scales(n, (k - 1) as nat);
        lemma_rounded_doubles(n * half);
        assert(n * (2 * half) == 2 * (n * half)) by (nonlinear_arith);
        assert(rounded(n) * (2 * half) == 2 * (rounded(n) * half)) by (nonlinear_arith);
    }
}

/// A scale factor: a single-precision number, held by its bit pattern. The highest bit is
/// the sign, the next eight are the exponent field and the last 23 the fraction field.
#[derive(Clone, Copy, Debug, PartialEq, Eq, Structural)]
pub struct ScaleFactor {
    pub bits: u32,
}

impl ScaleFactor {
    /// Whether the sign bit is set: the negative numbers, negative zero and negative infinity.
    pub open spec fn is_negative(self) -> bool {
        self.bits >= 0x8000_0000
    }

    /// The exponent field.
    pub open spec fn exponent_field(self) -> nat {
        ((self.bits / 0x80_0000) % 0x100) as nat
    }

    /// The fraction field.
    pub open spec fn fraction_field(self) -> nat {
        (self.bits % 0x80_0000) as nat
    }

    /// Whether the pattern stands for no number at all.
    pub open spec fn is_nan(self) -> bool {
        self.exponent_field() == 0xff && self.fraction_field() != 0
    }

    /// Whether the pattern stands for an infinity.
    pub open spec fn is_infinite(self) -> bool {
        self.exponent_field() == 0xff && self.fraction_field() == 0
    }

    /// Whether the pattern stands for a number above zero.
    pub open spec fn is_positive_finite(self) -> bool {
        !self.is_negative() && self.exponent_field() != 0xff && self.bits != 0
    }

    /// The significant digits as a whole number: the fraction field, with a leading one
    /// unless the exponent field is zero.
    pub open spec fn significand(self) -> nat {
        if self.exponent_field() == 0 {
            self.fraction_field()
        } else {
            0x80_0000 + self.fraction_field()
        }
    }

    /// How many times 2^-149 is doubled to give the weight of the last significant digit.
    pub open spec fn doublings(self) -> nat {
        if self.exponent_field() == 0 {
            0
        } else {
            (self.exponent_field() - 1) as nat
        }
    }

    /// The size of a finite number without its sign, counted in units of 2^-149.
    pub open spec fn magnitude(self) -> nat {
        self.significand() * pow2(self.doublings())
    }

    /// The scale factor with the bit pattern `bits`.
    pub fn from_bits(bits: u32) -> (scale: ScaleFactor)
        ensures
            scale.bits == bits,
    {
        ScaleFactor { bits }
    }

    /// The bit pattern.
    pub fn to_bits(&self) -> (bits: u32)
        ensures
            bits == self.bits,
    {
        self.bits
    }
}

/// `n`, or the largest length where `n` is more.
pub open spec fn capped(n: nat) -> u32 {
    if n > u32::MAX {
        u32::MAX
    } else {
        n as u32
    }
}

/// The whole part of a number counted in units of 2^-149.
pub open spec fn whole_part(units: nat) -> nat {
    units / pow2(149)
}

/// `length` times `scale` in single precision, cut to a whole number. No number, and
/// anything negative, gives 0; what is too large gives the largest length.
pub open spec fn scaled_length(length: u32, scale: ScaleFactor) -> u32 {
    if scale.is_nan() || scale.is_negative() {
        0
    } else if scale.is_infinite() {
        if length == 0 {
            0
        } else {
            u32::MAX
        }
    } else {
        capped(whole_part(rounded(rounded(length as nat) * scale.magnitude())))
    }
}

/// The scaled length of a finite factor that is not negative, in the parts of the factor:
/// the rounded length times the significand, rounded, then doubled or halved as often as
/// the exponent field says, fractions dropped.
pub open spec fn scaled_by_parts(length: u32, scale: ScaleFactor) -> nat {
    let kept = rounded(rounded(length as nat) * scale.significand());
    if scale.doublings() >= 149 {
        kept * pow2((scale.doublings() - 149) as nat)
    } else {
        kept / pow2((149 - scale.doublings()) as nat)
    }
}

/// For a finite factor that is not negative, the scaled length is [`scaled_by_parts`], up
/// to the largest length. With this the scaled length of given numbers can be worked out in
/// small numbers.
pub proof fn lemma_scaled_length_by_parts(length: u32, scale: ScaleFactor)
    requires
        !scale.is_negative(),
        scale.exponent_field() != 0xff,
    ensures
        scaled_length(length, scale) == capped(scaled_by_parts(length, scale)),
{
    let doublings = scale.doublings();
    let up = pow2(doublings);
    let factor = rounded(length as nat);
    let exact = factor * scale.significand();
    let kept = rounded(exact);
    lemma_rounded_scales(exact, doublings);
    assert(factor * (scale.significand() * up) == exact * up) by (nonlinear_arith)
        requires
            exact == factor * scale.significand(),
    ;
    assert(rounded(factor * scale.magnitude()) == kept * up);
    lemma_pow2_pos(149);
    if doublings >= 149 {
        let more = pow2((doublings - 149) as nat);
        lemma_pow2_adds((doublings - 149) as nat, 149);
        assert(kept * (more * pow2(149)) == (kept * more) * pow2(149)) by (nonlinear_arith);
        lemma_fundamental_div_mod_converse(
            (kept * up) as int,
            pow2(149) as int,
            (kept * more) as int,
            0,
        );
    } else {
        let less = pow2((149 - doublings) as nat);
        lemma_pow2_adds(doublings, (149 - doublings) as nat);
        lemma_pow2_pos(doublings);
        lemma_pow2_pos((149 - doublings) as nat);
        lemma_div_denominator((kept * up) as int, up as int, less as int);
        lemma_fundamental_div_mod_converse((kept * up) as int, up as int, kept as int, 0);
    }
}

/// `value` doubled `count` times, or the largest length where that is more.
fn doubled_capped(value: u64, count: u32) -> (r: u32)
    ensures
        r == capped(value as nat * pow2(count as nat)),
{
    let mut v: u64 = value;
    let mut i: u32 = 0;
    proof {
        vstd::arithmetic::power2::lemma2_to64();
        assert(value as nat * 1 == value) by (nonlinear_arith);
    }
    while i < count && v <= 0xffff_ffff
        invariant
            i <= count,
            v == value as nat * pow2(i as nat),
        decreases count - i,
    {
        proof {
            lemma_pow2_unfold((i + 1) as nat);
            assert(value as nat * (2 * pow2(i as nat)) == 2 * (value as nat * pow2(i as nat)))
                by (nonlinear_arith);
        }
        v = v * 2;
        i = i + 1;
    }
    if v > 0xffff_ffff {
        proof {
            lemma_pow2_adds(i as nat, (count - i) as nat);
            lemma_pow2_pos((count - i) as nat);
            assert(value as nat * (pow2(i as nat) * pow2((count - i) as nat)) >= value as nat
                * pow2(i as nat)) by (nonlinear_arith)
                requires
                    pow2((count - i) as nat) >= 1,
            ;
        }
        u32::MAX
    } else {
        v as u32
    }
}

/// `value` halved `count` times, fractions dropped, or the largest length where that is more.
fn halved_capped(value: u64, count: u32) -> (r: u32)
    ensures
        r == capped(value as nat / pow2(count as nat)),
{
    let mut v: u64 = value;
    let mut i: u32 = 0;
    proof {
        vstd::arithmetic::power2::lemma2_to64();
    }
    while i < count && v > 0
        invariant
            i <= count,
            v == value as nat / pow2(i as nat),
        decreases count - i,
    {
        proof {
            lemma_pow2_unfold((i + 1) as nat);
            lemma_pow2_pos(i as nat);
            lemma_div_denominator(value as int, pow2(i as nat) as int, 2);
            assert(pow2(i as nat) * 2 == 2 * pow2(i as nat));
        }
        v = v / 2;
        i = i + 1;
    }
    proof {
        if i < count {
            lemma_pow2_adds(i as nat, (count - i) as nat);
            lemma_pow2_pos(i as nat);
            lemma_pow2_pos((count - i) as nat);
            lemma_div_denominator(
                value as int,
                pow2(i as nat) as int,
                pow2((count - i) as nat) as int,
            );
        }
    }
    if v > 0xffff_ffff {
        u32::MAX
    } else {
        v as u32
    }
}

/// Multiplies `length` by `scale` as single-precision arithmetic does and cuts the product
/// to a whole number.
pub fn scale_length(length: u32, scale: ScaleFactor) -> (scaled: u32)
    ensures
        scaled == scaled_length(length, scale),
{
    let bits: u32 = scale.bits;
    if bits >= 0x8000_0000 {
        return 0;
    }
    let exponent: u32 = bits / 0x80_0000;
    let fraction: u32 = bits % 0x80_0000;
    if exponent == 0xff {
        return if fraction != 0 || length == 0 {
            0
        } else {
            u32::MAX
        };
    }
    let significand: u64 = if exponent == 0 {
        fraction as u64
    } else {
        0x80_0000 + fraction as u64
    };
    let doublings: u32 = if exponent == 0 {
        0
    } else {
        exponent - 1
    };
    let factor: u64 = round_to_precision(length as u64);
    proof {
        lemma_rounded_bounds(length as nat);
        assert(factor * significand < 0x200_0000_0000_0000) by (nonlinear_arith)
            requires
                factor <= 0x2_0000_0000,
                significand < 0x100_0000,
        ;
    }
    let exact: u64 = factor * significand;
    let kept: u64 = round_to_precision(exact);
    proof {
        lemma_scaled_length_by_parts(length, scale);
    }
    if doublings >= 149 {
        doubled_capped(kept, doublings - 149)
    } else {
        halved_capped(kept, 149 - doublings)
    }
}

/// The whole part of the exact product of `length` and a finite `scale` that is not
/// negative: the product as it would be without any rounding.
pub open spec fn exact_scaled_length(length: u32, scale: ScaleFactor) -> nat {
    whole_part(length as nat * scale.magnitude())
}

/// Where single precision holds the length and the product as they are, the scaled length
/// is the whole part of the exact product, up to the largest length.
pub proof fn lemma_scaling_without_rounding(length: u32, scale: ScaleFactor)
    requires
        scale.is_positive_finite(),
        rounded(length as nat) == length,
        rounded(length as nat * scale.magnitude()) == length as nat * scale.magnitude(),
    ensures
        scaled_length(length, scale) == capped(exact_scaled_length(length, scale)),
{
}

/// Scaling a length below 16,777,216 by a power of two, such as a half or a quarter or
/// two, is exact.
pub proof fn lemma_scaling_by_power_of_two(length: u32, scale: ScaleFactor)
    requires
        scale.is_positive_finite(),
        scale.exponent_field() != 0,
        scale.fraction_field() == 0,
        length < PRECISION_LIMIT,
    ensures
        scaled_length(length, scale) == capped(exact_scaled_length(length, scale)),
{
    let doublings = scale.doublings();
    assert(pow2(23) == 0x80_0000) by {
        vstd::arithmetic::power2::lemma2_to64();
    }
    lemma_pow2_adds(23, doublings);
    lemma_rounded_bounds(length as nat);
    lemma_rounded_scales(length as nat, 23 + doublings);
}

/// How often the spacing around `n` has doubled.
spec fn spacing_exponent(n: nat) -> nat
    decreases n,
{
    if n < PRECISION_LIMIT {
        0
    } else {
        1 + spacing_exponent(n / 2)
    }
}

/// The spacing is a power of two, and below 2^(24 + `room`) it is at most 2^`room`.
proof fn lemma_quantum_is_power_of_two(n: nat, room: nat)
    requires
        n < PRECISION_LIMIT * pow2(room),
    ensures
        quantum(n) == pow2(spacing_exponent(n)),
        spacing_exponent(n) <= room,
    decreases n,
{
    if n < PRECISION_LIMIT {
        assert(pow2(0) == 1) by {
            vstd::arithmetic::power2::lemma2_to64();
        }
    } else {
        if room == 0 {
            assert(pow2(0) == 1) by {
                vstd::arithmetic::power2::lemma2_to64();
            }
            assert(PRECISION_LIMIT * 1 == PRECISION_LIMIT) by (nonlinear_arith);
            assert(false);
        }
        lemma_pow2_unfold(room);
        assert(PRECISION_LIMIT * (2 * pow2((room - 1) as nat)) == 2 * (PRECISION_LIMIT * pow2(
            (room - 1) as nat,
        ))) by (nonlinear_arith);
        lemma_quantum_is_power_of_two(n / 2, (room - 1) as nat);
        lemma_pow2_unfold(spacing_exponent(n));
    }
}

/// Rounding to multiples of `step` never passes a multiple of `step`.
proof fn lemma_rounding_stays_between_multiples(n: nat, step: nat, below: nat, above: nat)
    requires
        step > 0,
        below * step <= n <= above * step,
    ensures
        below * step <= round_half_even(n, step) <= above * step,
{
    let q = n / step;
    let r = n % step;
    lemma_fundamental_div_mod(n as int, step as int);
    assert(below <= q) by (nonlinear_arith)
        requires
            below * step <= step * q + r,
            r < step,
            step > 0,
    ;
    assert(below * step <= q * step) by (nonlinear_arith)
        requires
            below <= q,
    ;
    assert((q + 1) * step == q * step + step) by (nonlinear_arith);
    assert(step * q == q * step) by (nonlinear_arith);
    if r == 0 {
        assert(2 * r < step);
    } else {
        assert(above >= q + 1) by (nonlinear_arith)
            requires
                step * q + r <= above * step,
                r > 0,
                step > 0,
        ;
        assert((q + 1) * step <= above * step) by (nonlinear_arith)
            requires
                q + 1 <= above,
        ;
    }
}

/// Below 16,777,216 on both sides, single-precision scaling is off by at most one: the
/// scaled length is the whole part of the exact product, or one more where the product lies
/// so close under the next whole number that rounding reaches it.
pub proof fn lemma_scaling_is_near_exact(length: u32, scale: ScaleFactor)
    requires
        scale.is_positive_finite(),
        length < PRECISION_LIMIT,
        exact_scaled_length(length, scale) < PRECISION_LIMIT,
    ensures
        exact_scaled_length(length, scale) <= scaled_length(length, scale)
            <= exact_scaled_length(length, scale) + 1,
        scaled_length(length, scale) == exact_scaled_length(length, scale) + 1 ==> rounded(
            length as nat * scale.magnitude(),
        ) == (exact_scaled_length(length, scale) + 1) * pow2(149),
{
    let unit = pow2(149);
    let exact = length as nat * scale.magnitude();
    let whole = exact / unit;
    lemma_rounded_bounds(length as nat);
    lemma_pow2_pos(149);
    let part = exact % unit;
    lemma_fundamental_div_mod(exact as int, unit as int);
    assert(exact < (whole + 1) * unit) by (nonlinear_arith)
        requires
            exact == unit * whole + part,
            part < unit,
    ;
    assert((whole + 1) * unit <= PRECISION_LIMIT * unit) by (nonlinear_arith)
        requires
            whole + 1 <= PRECISION_LIMIT,
    ;
    lemma_quantum_is_power_of_two(exact, 149);
    let k = spacing_exponent(exact);
    let step = quantum(exact);
    let ratio = pow2((149 - k) as nat);
    lemma_pow2_adds((149 - k) as nat, k);
    lemma_pow2_pos(k);
    assert(whole * unit == (whole * ratio) * step) by (nonlinear_arith)
        requires
            unit == ratio * step,
    ;
    assert((whole + 1) * unit == ((whole + 1) * ratio) * step) by (nonlinear_arith)
        requires
            unit == ratio * step,
    ;
    assert(whole * unit <= exact) by (nonlinear_arith)
        requires
            exact == unit * whole + part,
            part >= 0,
    ;
    lemma_rounding_stays_between_multiples(exact, step, whole * ratio, (whole + 1) * ratio);
    let kept = rounded(exact);
    assert(whole * unit <= kept <= (whole + 1) * unit);
    if kept == (whole + 1) * unit {
        lemma_fundamental_div_mod_converse(kept as int, unit as int, (whole + 1) as int, 0);
    } else {
        assert(kept - whole * unit < unit) by (nonlinear_arith)
            requires
                kept < (whole + 1) * unit,
        ;
        lemma_fundamental_div_mod_converse(
            kept as int,
            unit as int,
            whole as int,
            kept - whole * unit,
        );
    }
}

} // verus!
