//! Comparing and widening patterns means comparing and keeping the numbers that
//! they stand for.
//!
//! A finite pattern has a sign bit, eight bits of exponent and twenty-three bits
//! of fraction. It stands for a whole number of units of the least positive
//! float; these laws speak of those whole numbers.

use vstd::arithmetic::power2::{
    lemma_pow2_pos, lemma_pow2_strictly_increases, lemma_pow2_unfold, pow2,
};
use vstd::prelude::*;

use crate::float_bits::{
    float_eq, float_gt, is_finite, is_nan, NEGATIVE_INFINITY,
};

verus! {

/// The exponent bits of a pattern.
pub open spec fn exponent_bits(bits: u32) -> int {
    bits as int / 0x80_0000 % 0x100
}

/// The significand of a finite pattern: its fraction, with the leading bit that
/// is not stored where the exponent is not zero.
pub open spec fn significand(bits: u32) -> int {
    bits as int % 0x80_0000 + if exponent_bits(bits) == 0 {
        0int
    } else {
        0x80_0000int
    }
}

/// The magnitude of a finite pattern, in units of the least positive float.
pub open spec fn magnitude(bits: u32) -> int {
    let exponent = exponent_bits(bits);
    significand(bits) * pow2(
        (if exponent == 0 {
            0int
        } else {
            exponent - 1
        }) as nat,
    )
}

/// The number that a finite pattern stands for, in units of the least positive
/// float.
pub open spec fn number(bits: u32) -> int {
    if bits as int / 0x8000_0000 == 1 {
        -magnitude(bits)
    } else {
        magnitude(bits)
    }
}

proof fn magnitude_is_not_negative(bits: u32)
    ensures
        magnitude(bits) >= 0,
        magnitude(bits) == 0 <==> bits % 0x8000_0000 == 0,
{
    let exponent = exponent_bits(bits);
    let power = pow2((if exponent == 0 { 0int } else { exponent - 1 }) as nat);
    lemma_pow2_pos((if exponent == 0 { 0int } else { exponent - 1 }) as nat);
    assert(magnitude(bits) >= 0 && (magnitude(bits) == 0 <==> significand(bits) == 0))
        by (nonlinear_arith)
        requires
            magnitude(bits) == significand(bits) * power,
            power > 0,
            significand(bits) >= 0,
    ;
}

proof fn magnitudes_grow(a: u32, b: u32)
    requires
        a % 0x8000_0000 < b % 0x8000_0000 < 0x7f80_0000,
    ensures
        magnitude(a) < magnitude(b),
{
    let (ea, eb) = (exponent_bits(a), exponent_bits(b));
    let (sa, sb) = (significand(a), significand(b));
    let na = (if ea == 0 { 0int } else { ea - 1 }) as nat;
    let nb = (if eb == 0 { 0int } else { eb - 1 }) as nat;
    lemma_pow2_pos(na);
    lemma_pow2_pos(nb);
    assert(ea <= eb);
    if ea == eb {
        assert(sa < sb);
        assert(sa * pow2(na) < sb * pow2(nb)) by (nonlinear_arith)
            requires
                sa < sb,
                pow2(na) == pow2(nb),
                pow2(na) > 0,
        ;
    } else if ea == 0 {
        assert(pow2(0) == 1) by {
            vstd::arithmetic::power2::lemma2_to64();
        }
        assert(sa * pow2(na) < sb * pow2(nb)) by (nonlinear_arith)
            requires
                sa < 0x80_0000,
                0x80_0000 <= sb,
                pow2(na) == 1,
                pow2(nb) >= 1,
        ;
    } else {
        lemma_pow2_unfold((na + 1) as nat);
        if na + 1 < nb {
            lemma_pow2_strictly_increases((na + 1) as nat, nb);
        }
        assert(sa * pow2(na) < sb * pow2(nb)) by (nonlinear_arith)
            requires
                sa < 0x100_0000,
                0x80_0000 <= sb,
                pow2(na) > 0,
                2 * pow2(na) <= pow2(nb),
        ;
    }
}

/// Patterns are ordered as the numbers that they stand for: of two finite
/// patterns the greater one is that of the greater number, and two are equal
/// where the numbers are.
pub proof fn patterns_are_ordered_as_numbers(a: u32, b: u32)
    requires
        is_finite(a),
        is_finite(b),
    ensures
        float_gt(a, b) <==> number(a) > number(b),
        float_eq(a, b) <==> number(a) == number(b),
{
    magnitude_is_not_negative(a);
    magnitude_is_not_negative(b);
    let (x, y) = (a % 0x8000_0000, b % 0x8000_0000);
    if x < y {
        magnitudes_grow(a, b);
    } else if y < x {
        magnitudes_grow(b, a);
    } else {
        assert(exponent_bits(a) == exponent_bits(b));
        assert(significand(a) == significand(b));
        assert(magnitude(a) == magnitude(b));
    }
}

/// Turning both signs turns the order round, so of two negative numbers the one
/// nearer to zero is the greater one.
pub proof fn signs_turn_the_order_round(a: u32, b: u32, minus_a: u32, minus_b: u32)
    requires
        a < 0x8000_0000,
        b < 0x8000_0000,
        minus_a == a + 0x8000_0000,
        minus_b == b + 0x8000_0000,
    ensures
        float_gt(a, b) <==> float_gt(minus_b, minus_a),
        float_eq(a, b) <==> float_eq(minus_a, minus_b),
        is_finite(a) && a > 0 ==> number(minus_a) == -number(a) && float_gt(a, minus_b)
            == !is_nan(b),
{
    if is_finite(a) {
        magnitude_is_not_negative(a);
        assert(exponent_bits(minus_a) == exponent_bits(a));
        assert(significand(minus_a) == significand(a));
    }
}

/// What is finite is exactly what has not all exponent bits set; of the rest the
/// patterns without a fraction are infinite and the others stand for no number.
/// No number is neither greater than, nor less than, nor equal to anything, and
/// an infinite pattern is beyond every finite one on its side.
pub proof fn what_is_not_finite_is_beyond_every_number(a: u32, b: u32)
    ensures
        is_finite(a) <==> exponent_bits(a) != 255,
        is_nan(a) <==> exponent_bits(a) == 255 && a as int % 0x80_0000 != 0,
        is_nan(a) ==> !float_gt(a, b) && !float_gt(b, a) && !float_eq(a, b) && !float_eq(b, a),
        is_finite(b) ==> float_gt(b, NEGATIVE_INFINITY) && float_gt(0x7f80_0000, b),
        !float_gt(NEGATIVE_INFINITY, a),
        NEGATIVE_INFINITY == 0xff80_0000,
        !is_nan(a) && !is_nan(b) ==> float_gt(a, b) || float_gt(b, a) || float_eq(a, b),
{
}

} // verus!
