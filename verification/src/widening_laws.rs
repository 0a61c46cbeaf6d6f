//! Changing the width of a float keeps its number.

use vstd::arithmetic::power2::{
    lemma2_to64, lemma_pow2_adds, lemma_pow2_pos, lemma_pow2_unfold, pow2,
};
use vstd::prelude::*;

use crate::float_bits::{
    bf16_widened, f16_widened, is_finite, is_nan, narrowed, normalized, rounded, two_to,
};
use crate::float_laws::{exponent_bits, magnitude, number, significand};

verus! {

/// The magnitude of a finite 16-bit float with five bits of exponent and ten of
/// fraction, in units of the least positive one.
pub open spec fn half_magnitude(bits: u16) -> int {
    let exponent = bits as int / 0x400 % 0x20;
    let fraction = bits as int % 0x400;
    if exponent == 0 {
        fraction
    } else {
        (0x400 + fraction) * pow2((exponent - 1) as nat)
    }
}

/// The number of a finite 16-bit float, in units of the least positive one.
pub open spec fn half_number(bits: u16) -> int {
    if bits >= 0x8000 {
        -half_magnitude(bits)
    } else {
        half_magnitude(bits)
    }
}

/// The number of a finite brain float, with eight bits of exponent and seven of
/// fraction, in units of the least positive one.
pub open spec fn brain_number(bits: u16) -> int {
    let exponent = bits as int / 0x80 % 0x100;
    let fraction = bits as int % 0x80;
    let magnitude = if exponent == 0 {
        fraction
    } else {
        (0x80 + fraction) * pow2((exponent - 1) as nat)
    };
    if bits >= 0x8000 {
        -magnitude
    } else {
        magnitude
    }
}

proof fn a_pattern_has_its_magnitude(bits: u32, sign: int, exponent: int, fraction: int)
    requires
        sign == 0 || sign == 1,
        0 < exponent < 0xff,
        0 <= fraction < 0x80_0000,
        bits == sign * 0x8000_0000 + exponent * 0x80_0000 + fraction,
    ensures
        magnitude(bits) == (0x80_0000 + fraction) * pow2((exponent - 1) as nat),
        number(bits) == if sign == 1 {
            -magnitude(bits)
        } else {
            magnitude(bits)
        },
        is_finite(bits),
{
    assert(exponent_bits(bits) == exponent);
    assert(bits as int % 0x80_0000 == fraction);
    assert(significand(bits) == 0x80_0000 + fraction);
}

proof fn a_fraction_keeps_its_magnitude(mantissa: nat, exponent: int) -> (shape: (int, int))
    requires
        0 < mantissa < 0x800,
        1 <= exponent < 0xff,
        mantissa * pow2((exponent - 1) as nat) >= 0x400,
    ensures
        0 < shape.0 <= exponent,
        0 <= shape.1 < 0x80_0000,
        normalized(mantissa, exponent) == shape.0 * 0x80_0000 + shape.1,
        (0x80_0000 + shape.1) * pow2((shape.0 - 1) as nat) == mantissa * 0x2000 * pow2(
            (exponent - 1) as nat,
        ),
    decreases 0x800 - mantissa,
{
    if mantissa >= 0x400 {
        (exponent, (mantissa - 0x400) * 0x2000)
    } else {
        lemma2_to64();
        assert(exponent > 1) by {
            if exponent == 1 {
                assert(mantissa * pow2(0) == mantissa) by (nonlinear_arith)
                    requires
                        pow2(0) == 1,
                ;
            }
        }
        lemma_pow2_unfold((exponent - 1) as nat);
        let lower = pow2((exponent - 2) as nat) as int;
        let power = pow2((exponent - 1) as nat) as int;
        assert((2 * mantissa) * lower == mantissa * power && (2 * mantissa) * 0x2000 * lower
            == mantissa * 0x2000 * power) by (nonlinear_arith)
            requires
                power == 2 * lower,
        ;
        a_fraction_keeps_its_magnitude(2 * mantissa, exponent - 1)
    }
}

/// A finite 16-bit float widens to the same number: in the unit of the wider
/// format it counts two to the power of one hundred and twenty-five as often.
pub proof fn a_half_keeps_its_number(bits: u16)
    requires
        bits as int / 0x400 % 0x20 != 0x1f,
    ensures
        is_finite(f16_widened(bits)),
        number(f16_widened(bits)) == half_number(bits) * pow2(125),
{
    let sign: int = if bits >= 0x8000 { 1 } else { 0 };
    let exponent = bits as int / 0x400 % 0x20;
    let fraction = bits as int % 0x400;
    let wide = f16_widened(bits);
    lemma2_to64();
    lemma_pow2_adds(13, 112);
    let unit = pow2(125) as int;
    let low = pow2(112) as int;
    assert(unit == 0x2000 * low);
    if exponent != 0 {
        let power = pow2((exponent - 1) as nat) as int;
        let moved = pow2((exponent + 111) as nat) as int;
        a_pattern_has_its_magnitude(wide, sign, exponent + 112, fraction * 0x2000);
        lemma_pow2_adds((exponent - 1) as nat, 112);
        assert(moved == power * low);
        assert((0x80_0000 + fraction * 0x2000) * moved == (0x400 + fraction) * power * unit)
            by (nonlinear_arith)
            requires
                moved == power * low,
                unit == 0x2000 * low,
        ;
        assert(-((0x400 + fraction) * power) * unit == -((0x400 + fraction) * power * unit))
            by (nonlinear_arith);
    } else if fraction == 0 {
        assert(wide == sign * 0x8000_0000);
        assert(exponent_bits(wide) == 0);
        assert(significand(wide) == 0);
        assert(0 * pow2(0) == 0) by (nonlinear_arith);
        assert(magnitude(wide) == 0);
        assert(0 * unit == 0) by (nonlinear_arith);
    } else {
        assert(fraction * low >= 0x400) by {
            lemma_pow2_adds(10, 102);
            lemma_pow2_pos(102);
            let rest = pow2(102) as int;
            assert(fraction * low >= 0x400) by (nonlinear_arith)
                requires
                    fraction >= 1,
                    low == 0x400 * rest,
                    rest >= 1,
            ;
        }
        let shape = a_fraction_keeps_its_magnitude(fraction as nat, 113);
        a_pattern_has_its_magnitude(wide, sign, shape.0, shape.1);
        assert(fraction * 0x2000 * low == fraction * unit) by (nonlinear_arith)
            requires
                unit == 0x2000 * low,
        ;
        assert(-fraction * unit == -(fraction * unit)) by (nonlinear_arith);
    }
}

/// A brain float widens to the same number: it has the exponents of the wider
/// format and sixteen bits of fraction fewer.
pub proof fn a_brain_float_keeps_its_number(bits: u16)
    requires
        bits as int / 0x80 % 0x100 != 0xff,
    ensures
        is_finite(bf16_widened(bits)),
        number(bf16_widened(bits)) == brain_number(bits) * 0x1_0000,
{
    let sign: int = if bits >= 0x8000 { 1 } else { 0 };
    let exponent = bits as int / 0x80 % 0x100;
    let fraction = bits as int % 0x80;
    let wide = bf16_widened(bits);
    assert(bits == sign * 0x8000 + exponent * 0x80 + fraction);
    assert(wide == bits * 0x1_0000);
    if exponent != 0 {
        let power = pow2((exponent - 1) as nat) as int;
        a_pattern_has_its_magnitude(wide, sign, exponent, fraction * 0x1_0000);
        assert((0x80_0000 + fraction * 0x1_0000) * power == (0x80 + fraction) * power * 0x1_0000)
            by (nonlinear_arith);
    } else {
        lemma2_to64();
        assert(exponent_bits(wide) == 0);
        assert(significand(wide) == fraction * 0x1_0000);
        assert(fraction * 0x1_0000 * pow2(0) == fraction * 0x1_0000) by (nonlinear_arith)
            requires
                pow2(0) == 1,
        ;
    }
}

/// What is infinite stays infinite with its sign, and what is no number stays
/// none.
pub proof fn widening_keeps_what_is_not_finite(bits: u16)
    ensures
        bits == 0x7c00 ==> f16_widened(bits) == 0x7f80_0000,
        bits == 0xfc00 ==> f16_widened(bits) == 0xff80_0000,
        bits as int % 0x8000 > 0x7c00 ==> is_nan(f16_widened(bits)),
        bits == 0x7f80 ==> bf16_widened(bits) == 0x7f80_0000,
        bits == 0xff80 ==> bf16_widened(bits) == 0xff80_0000,
        bits as int % 0x8000 > 0x7f80 ==> is_nan(bf16_widened(bits)),
{
}

/// Rounding moves a quotient by at most one half, and to the even one of two.
pub proof fn rounding_is_to_the_nearest(n: nat, divisor: nat)
    requires
        divisor > 0,
    ensures
        ({
            let off = rounded(n, divisor) * divisor - n;
            &&& -(divisor as int) <= 2 * off <= divisor
            &&& (2 * off == divisor || 2 * off == -(divisor as int)) ==> rounded(n, divisor) % 2
                == 0
        }),
{
    vstd::arithmetic::div_mod::lemma_fundamental_div_mod(n as int, divisor as int);
    let quotient = (n / divisor) as int;
    let d = divisor as int;
    assert((quotient + 1) * d == d * quotient + d) by (nonlinear_arith);
    assert(quotient * d == d * quotient) by (nonlinear_arith);
}

proof fn powers_agree(n: nat)
    ensures
        two_to(n) == pow2(n),
    decreases n,
{
    lemma2_to64();
    if n > 0 {
        lemma_pow2_unfold(n);
        powers_agree((n - 1) as nat);
    }
}

/// The 64-bit pattern with the number of a 32-bit pattern whose exponent bits are
/// neither all zero nor all one.
pub open spec fn doubled(bits: u32) -> int {
    let sign = bits as int / 0x8000_0000;
    let exponent = exponent_bits(bits);
    let fraction = bits as int % 0x80_0000;
    sign * 0x8000_0000_0000_0000 + (exponent + 896) * 0x10_0000_0000_0000 + fraction * 0x2000_0000
}

/// A 32-bit float that was written as a 64-bit one is read back as it was.
pub proof fn narrowing_gives_back_what_was_widened(bits: u32, wide: u64)
    requires
        0 < exponent_bits(bits) < 0xff,
        wide == doubled(bits),
    ensures
        narrowed(wide) == bits,
{
    let exponent = exponent_bits(bits);
    let fraction = bits as int % 0x80_0000;
    assert(two_to(29) == 0x2000_0000) by {
        powers_agree(29);
        lemma2_to64();
    }
    assert(wide as int / 0x10_0000_0000_0000 % 0x800 == exponent + 896);
    assert(wide as int % 0x10_0000_0000_0000 == fraction * 0x2000_0000);
    let whole = (0x10_0000_0000_0000 + fraction * 0x2000_0000) as nat;
    assert(whole == (0x80_0000 + fraction) * 0x2000_0000);
    assert(whole / 0x2000_0000 == 0x80_0000 + fraction);
    assert(whole % 0x2000_0000 == 0);
    assert(rounded(whole, 0x2000_0000) == 0x80_0000 + fraction);
}

/// The order of 64-bit patterns of one exponent is kept by narrowing.
pub proof fn narrowing_keeps_the_order(a: u64, b: u64)
    requires
        a <= b,
        b < 0x8000_0000_0000_0000,
        a as int / 0x10_0000_0000_0000 == b as int / 0x10_0000_0000_0000,
        897 <= a as int / 0x10_0000_0000_0000 <= 1150,
    ensures
        narrowed(a) <= narrowed(b),
{
    assert(two_to(29) == 0x2000_0000) by {
        powers_agree(29);
        lemma2_to64();
    }
    let low = (0x10_0000_0000_0000 + a as int % 0x10_0000_0000_0000) as nat;
    let high = (0x10_0000_0000_0000 + b as int % 0x10_0000_0000_0000) as nat;
    assert(low <= high);
    assert(rounded(low, 0x2000_0000) <= rounded(high, 0x2000_0000));
}

} // verus!
