//! IEEE 754 values held as bit patterns.
//!
//! Weights, logits and scores pass through the library as the bits of 32-bit
//! floats: the library moves, widens and compares them, and never computes
//! with them.

use vstd::prelude::*;

verus! {

/// The bits of negative infinity.
pub const NEGATIVE_INFINITY: u32 = 0xff80_0000;

/// The pattern stands for no number.
pub open spec fn is_nan(bits: u32) -> bool {
    bits % 0x8000_0000 > 0x7f80_0000
}

/// The pattern stands for a number that is not infinite.
pub open spec fn is_finite(bits: u32) -> bool {
    bits % 0x8000_0000 < 0x7f80_0000
}

/// A number that orders patterns as the floats they stand for are ordered.
/// Both zeros have the rank 0.
pub open spec fn rank(bits: u32) -> int {
    if bits < 0x8000_0000 {
        bits as int
    } else {
        0x8000_0000 - bits
    }
}

/// The float of `a` is greater than that of `b`.
pub open spec fn float_gt(a: u32, b: u32) -> bool {
    !is_nan(a) && !is_nan(b) && rank(a) > rank(b)
}

/// The floats of `a` and `b` are equal.
pub open spec fn float_eq(a: u32, b: u32) -> bool {
    !is_nan(a) && !is_nan(b) && rank(a) == rank(b)
}

/// Whether the pattern stands for a number that is not infinite.
pub fn finite(bits: u32) -> (r: bool)
    ensures
        r == is_finite(bits),
{
    bits % 0x8000_0000 < 0x7f80_0000
}

fn nan(bits: u32) -> (r: bool)
    ensures
        r == is_nan(bits),
{
    bits % 0x8000_0000 > 0x7f80_0000
}

fn rank_of(bits: u32) -> (r: i64)
    ensures
        r == rank(bits),
{
    if bits < 0x8000_0000 {
        bits as i64
    } else {
        0x8000_0000i64 - bits as i64
    }
}

/// Whether the float of `a` is greater than that of `b`.
pub fn greater(a: u32, b: u32) -> (r: bool)
    ensures
        r == float_gt(a, b),
{
    !nan(a) && !nan(b) && rank_of(a) > rank_of(b)
}

/// Whether the floats of `a` and `b` are equal.
pub fn equal(a: u32, b: u32) -> (r: bool)
    ensures
        r == float_eq(a, b),
{
    !nan(a) && !nan(b) && rank_of(a) == rank_of(b)
}

/// The magnitude of a 32-bit float with the fraction `mantissa` of a thousand
/// and twenty-four and the biased exponent `exponent`: the fraction is doubled
/// until its leading bit stands at the hidden place.
pub open spec fn normalized(mantissa: nat, exponent: int) -> int
    decreases 0x800 - mantissa,
{
    if mantissa == 0 {
        0
    } else if mantissa >= 0x400 {
        exponent * 0x80_0000 + (mantissa - 0x400) * 0x2000
    } else {
        normalized(2 * mantissa, exponent - 1)
    }
}

/// The bits of the 32-bit float with the value of the 16-bit float `bits`.
/// A signalling NaN becomes quiet.
pub open spec fn f16_widened(bits: u16) -> u32 {
    let sign: int = if bits >= 0x8000 { 0x8000_0000 } else { 0 };
    let exponent: int = bits as int / 0x400 % 32;
    let mantissa: int = bits as int % 0x400;
    let magnitude: int = if exponent == 31 && mantissa == 0 {
        0x7f80_0000
    } else if exponent == 31 {
        0x7fc0_0000 + mantissa % 0x200 * 0x2000
    } else if exponent == 0 {
        normalized(mantissa as nat, 113)
    } else {
        (exponent + 112) * 0x80_0000 + mantissa * 0x2000
    };
    (sign + magnitude) as u32
}

/// Normalizes the fraction of a subnormal 16-bit float.
fn normalized_bits(mantissa: u32) -> (magnitude: u32)
    requires
        mantissa < 0x400,
    ensures
        magnitude == normalized(mantissa as nat, 113),
        magnitude < 0x8000_0000,
{
    if mantissa == 0 {
        return 0;
    }
    let mut shifted: u32 = mantissa;
    let mut exponent: u32 = 113;
    let ghost mut unit: int = 1;
    while shifted < 0x400
        invariant
            0 < shifted < 0x800,
            unit <= shifted,
            exponent == 113 && unit == 1 || exponent == 112 && unit == 2 || exponent == 111 && unit
                == 4 || exponent == 110 && unit == 8 || exponent == 109 && unit == 16 || exponent
                == 108 && unit == 32 || exponent == 107 && unit == 64 || exponent == 106 && unit
                == 128 || exponent == 105 && unit == 256 || exponent == 104 && unit == 512
                || exponent == 103 && unit == 1024,
            normalized(shifted as nat, exponent as int) == normalized(mantissa as nat, 113),
        decreases 0x800 - shifted,
    {
        shifted = 2 * shifted;
        exponent = exponent - 1;
        proof {
            unit = 2 * unit;
        }
    }
    exponent * 0x80_0000 + (shifted - 0x400) * 0x2000
}

/// Widens a 16-bit float without loss.
pub fn widen_f16(bits: u16) -> (wide: u32)
    ensures
        wide == f16_widened(bits),
{
    let sign: u32 = if bits >= 0x8000 { 0x8000_0000 } else { 0 };
    let exponent: u32 = bits as u32 / 0x400 % 32;
    let mantissa: u32 = bits as u32 % 0x400;
    let magnitude: u32 = if exponent == 31 && mantissa == 0 {
        0x7f80_0000
    } else if exponent == 31 {
        0x7fc0_0000 + mantissa % 0x200 * 0x2000
    } else if exponent == 0 {
        normalized_bits(mantissa)
    } else {
        (exponent + 112) * 0x80_0000 + mantissa * 0x2000
    };
    sign + magnitude
}

/// The bits of the 32-bit float with the value of the brain float `bits`.
/// A signalling NaN becomes quiet.
pub open spec fn bf16_widened(bits: u16) -> u32 {
    let quiet: int = if bits % 0x8000 > 0x7f80 && bits % 0x80 < 0x40 { 0x40 } else { 0 };
    ((bits as int + quiet) * 0x1_0000) as u32
}

/// `half::bf16::to_f32_const`: widens a brain float without loss by appending
/// sixteen zero bits; a NaN becomes quiet.
#[verifier::external_body]
pub(crate) fn widen_bf16(bits: u16) -> (wide: u32)
    ensures
        wide == bf16_widened(bits),
{
    half::bf16::from_bits(bits).to_f32_const().to_bits()
}

/// Two to the power of `n`.
pub open spec fn two_to(n: nat) -> nat
    decreases n,
{
    if n == 0 {
        1
    } else {
        2 * two_to((n - 1) as nat)
    }
}

/// The whole number next to `n / divisor`; of two, the even one.
pub open spec fn rounded(n: nat, divisor: nat) -> nat {
    let quotient = n / divisor;
    let rest = n % divisor;
    if 2 * rest > divisor || (2 * rest == divisor && quotient % 2 == 1) {
        quotient + 1
    } else {
        quotient
    }
}

/// The bits of the 32-bit float next to the 64-bit float `bits`; of two, the
/// even one. What is too large becomes infinite, and every NaN the same one.
pub open spec fn narrowed(bits: u64) -> u32 {
    let sign: int = if bits >= 0x8000_0000_0000_0000 { 0x8000_0000 } else { 0 };
    let exponent: int = bits as int / 0x10_0000_0000_0000 % 0x800;
    let fraction: int = bits as int % 0x10_0000_0000_0000;
    let significand: nat = (0x10_0000_0000_0000 + fraction) as nat;
    let magnitude: int = if exponent == 0x7ff && fraction > 0 {
        0x7fc0_0000
    } else if exponent > 1150 {
        0x7f80_0000
    } else if exponent >= 897 {
        (exponent - 897) * 0x80_0000 + rounded(significand, two_to(29))
    } else if exponent >= 873 {
        rounded(significand, two_to((29 + 897 - exponent) as nat)) as int
    } else {
        0
    };
    (sign + magnitude) as u32
}

proof fn powers_grow(a: nat, b: nat)
    requires
        a <= b,
    ensures
        1 <= two_to(a) <= two_to(b),
    decreases b,
{
    if b > a {
        powers_grow(a, (b - 1) as nat);
    } else if b > 0 {
        powers_grow((a - 1) as nat, (b - 1) as nat);
    }
}

/// The 32-bit float next to a 64-bit one.
pub fn narrow(bits: u64) -> (r: u32)
    ensures
        r == narrowed(bits),
{
    let sign: u32 = if bits >= 0x8000_0000_0000_0000 {
        0x8000_0000
    } else {
        0
    };
    let exponent: u64 = bits / 0x10_0000_0000_0000 % 0x800;
    let fraction: u64 = bits % 0x10_0000_0000_0000;
    if exponent == 0x7ff && fraction > 0 {
        return sign + 0x7fc0_0000;
    }
    if exponent > 1150 {
        return sign + 0x7f80_0000;
    }
    if exponent < 873 {
        return sign;
    }
    let significand: u64 = 0x10_0000_0000_0000 + fraction;
    let shift: u64 = if exponent >= 897 {
        29
    } else {
        29 + 897 - exponent
    };
    let mut divisor: u64 = 1;
    let mut n: u64 = 0;
    proof {
        assert(two_to(53) == 0x20_0000_0000_0000) by {
            reveal_with_fuel(two_to, 54);
        }
        assert(two_to(29) == 0x2000_0000) by {
            reveal_with_fuel(two_to, 30);
        }
    }
    while n < shift
        invariant
            n <= shift,
            shift <= 53,
            divisor == two_to(n as nat),
            two_to(53) == 0x20_0000_0000_0000,
        decreases shift - n,
    {
        proof {
            powers_grow((n + 1) as nat, 53);
            assert(two_to((n + 1) as nat) == 2 * two_to(n as nat));
        }
        divisor = divisor * 2;
        n = n + 1;
    }
    proof {
        powers_grow(29, shift as nat);
    }
    let quotient: u64 = significand / divisor;
    let rest: u64 = significand % divisor;
    proof {
        powers_grow(shift as nat, 53);
        assert(quotient < 0x100_0000) by (nonlinear_arith)
            requires
                quotient == significand / divisor,
                significand < 0x20_0000_0000_0000,
                divisor >= 0x2000_0000,
        ;
        assert(rest < divisor) by (nonlinear_arith)
            requires
                rest == significand % divisor,
                divisor > 0,
        ;
    }
    let whole: u64 = if rest * 2 > divisor || (rest * 2 == divisor && quotient % 2 == 1) {
        quotient + 1
    } else {
        quotient
    };
    proof {
        assert(whole == rounded(significand as nat, two_to(shift as nat)));
    }
    if exponent >= 897 {
        sign + ((exponent - 897) * 0x80_0000 + whole) as u32
    } else {
        sign + whole as u32
    }
}

} // verus!
