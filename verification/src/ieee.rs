//! Single-precision bit patterns of the numbers that a pass is told about:
//! image sizes and their reciprocals. They are computed on integers; the
//! result is the bit pattern of the nearest representable number, ties going
//! to the even mantissa.

use vstd::prelude::*;
use vstd::arithmetic::power2::{pow2, lemma_pow2_adds, lemma_pow2_pos, lemma_pow2_strictly_increases, lemma2_to64, lemma2_to64_rest};
use crate::common::Size;
use crate::scaling::{bit_length, lemma_bit_length_bound, lemma_bit_length_u32, power_of_two, single_precision};

verus! {

/// The bit pattern of positive infinity.
pub const INFINITY: u32 = 0x7F80_0000;

/// The bit pattern of the number 1.
pub const ONE: u32 = 0x3F80_0000;

/// `numerator / denominator` rounded to the nearest integer, ties to even.
pub open spec fn nearest_quotient(numerator: nat, denominator: nat) -> nat {
    let quotient = numerator / denominator;
    let rest = numerator % denominator;
    if 2 * rest > denominator || (2 * rest == denominator && quotient % 2 == 1) {
        quotient + 1
    } else {
        quotient
    }
}

/// The 24-bit mantissa that `value`, a number of `bit_length(value)` binary
/// digits, is rounded to. It lies in `2^23 ..= 2^24`; `2^24` means that
/// rounding carried into the next power of two.
pub open spec fn rounded_mantissa(value: nat) -> nat {
    let digits = bit_length(value);
    if digits <= 24 {
        value * pow2((24 - digits) as nat)
    } else {
        nearest_quotient(value, pow2((digits - 24) as nat))
    }
}

/// The bit pattern with the biased exponent `exponent` and the mantissa
/// `mantissa`, whose leading digit is implied; a mantissa of `2^24` carries
/// into the exponent.
pub open spec fn packed(exponent: nat, mantissa: nat) -> nat {
    (exponent * 0x80_0000 + mantissa - 0x80_0000) as nat
}

/// The bit pattern of the single-precision number nearest to `value`.
pub open spec fn nearest_single(value: nat) -> nat {
    if value == 0 {
        0
    } else {
        packed(bit_length(value) + 126, rounded_mantissa(value))
    }
}

/// The bit pattern of the single-precision number nearest to the reciprocal
/// of the single-precision number nearest to `value`; infinity for 0.
pub open spec fn nearest_reciprocal(value: nat) -> nat {
    if value == 0 {
        INFINITY as nat
    } else {
        let mantissa = rounded_mantissa(value);
        let digits = bit_length(value);
        if mantissa == 0x100_0000 {
            packed((126 - digits) as nat, 0x100_0000)
        } else {
            packed((127 - digits) as nat, nearest_quotient(pow2(47), mantissa))
        }
    }
}

/// The four numbers that a pass is told of an image of `size`: width,
/// height, and the reciprocals of both.
pub open spec fn size_vector(size: Size) -> Seq<u32> {
    seq![
        nearest_single(size.width as nat) as u32,
        nearest_single(size.height as nat) as u32,
        nearest_reciprocal(size.width as nat) as u32,
        nearest_reciprocal(size.height as nat) as u32,
    ]
}

/// The rounded mantissa of a positive 32-bit value lies in `2^23 ..= 2^24`.
pub proof fn lemma_rounded_mantissa_range(value: nat)
    requires
        1 <= value <= u32::MAX,
    ensures
        0x80_0000 <= rounded_mantissa(value) <= 0x100_0000,
        1 <= bit_length(value) <= 32,
{
    let digits = bit_length(value);
    lemma_bit_length_bound(value);
    lemma_bit_length_u32(value);
    lemma2_to64();
    if digits <= 24 {
        let up = (24 - digits) as nat;
        lemma_pow2_adds((digits - 1) as nat, up);
        lemma_pow2_adds(digits, up);
        lemma_pow2_pos(up);
        assert(value * pow2(up) >= pow2((digits - 1) as nat) * pow2(up)) by (nonlinear_arith)
            requires
                value >= pow2((digits - 1) as nat),
        ;
        assert(value * pow2(up) < pow2(digits) * pow2(up)) by (nonlinear_arith)
            requires
                value < pow2(digits),
                pow2(up) > 0,
        ;
    } else {
        let down = (digits - 24) as nat;
        let unit = pow2(down);
        lemma_pow2_pos(down);
        lemma_pow2_adds(23, down);
        lemma_pow2_adds(24, down);
        let quotient = value / unit;
        assert(value == unit * quotient + value % unit) by {
            vstd::arithmetic::div_mod::lemma_fundamental_div_mod(value as int, unit as int);
        }
        assert(0 <= value % unit < unit) by {
            vstd::arithmetic::div_mod::lemma_mod_bound(value as int, unit as int);
        }
        assert(quotient >= 0x80_0000) by (nonlinear_arith)
            requires
                value == unit * quotient + value % unit,
                value % unit < unit,
                value >= 0x80_0000 * unit,
                unit > 0,
        ;
        assert(quotient < 0x100_0000) by (nonlinear_arith)
            requires
                value == unit * quotient + value % unit,
                value < 0x100_0000 * unit,
                unit > 0,
        ;
    }
}

/// Rounding a quotient to the nearest integer misses it by half at most,
/// and takes the even neighbour where the quotient lies half way.
pub proof fn lemma_nearest_quotient(numerator: nat, denominator: nat)
    requires
        denominator > 0,
    ensures
        2 * (nearest_quotient(numerator, denominator) * denominator - numerator) <= denominator,
        2 * (numerator - nearest_quotient(numerator, denominator) * denominator) <= denominator,
        2 * (numerator % denominator) == denominator ==> nearest_quotient(numerator, denominator) % 2 == 0,
{
    let quotient = numerator / denominator;
    let rest = numerator % denominator;
    vstd::arithmetic::div_mod::lemma_fundamental_div_mod(numerator as int, denominator as int);
    vstd::arithmetic::div_mod::lemma_mod_bound(numerator as int, denominator as int);
    assert((quotient + 1) * denominator == quotient * denominator + denominator) by (nonlinear_arith);
    assert(numerator == quotient * denominator + rest) by (nonlinear_arith)
        requires
            numerator == denominator * quotient + rest,
    ;
}

/// The bit pattern packed of a biased exponent below 255 and a mantissa
/// with its leading digit decodes to that mantissa and that exponent.
pub proof fn lemma_packed_decodes(exponent: nat, mantissa: nat)
    requires
        1 <= exponent < 255,
        0x80_0000 <= mantissa < 0x100_0000,
    ensures
        packed(exponent, mantissa) <= u32::MAX,
        single_precision(packed(exponent, mantissa) as u32) == Some(
            crate::scaling::ScaleFactor { negative: false, mantissa: mantissa as u32, exponent: (exponent - 150) as i32 },
        ),
{
    let fraction = (mantissa - 0x80_0000) as int;
    let bits = packed(exponent, mantissa) as int;
    assert(bits == exponent * 0x80_0000 + fraction);
    assert(bits < 0x8000_0000) by (nonlinear_arith)
        requires
            bits == exponent * 0x80_0000 + fraction,
            exponent < 255,
            fraction < 0x80_0000,
    ;
    vstd::arithmetic::div_mod::lemma_fundamental_div_mod_converse(bits, 0x80_0000, exponent as int, fraction);
    vstd::arithmetic::div_mod::lemma_small_mod(exponent, 256);
}

/// A whole number below `2^24` is encoded exactly: the bit pattern decodes
/// to a mantissa and an exponent whose product is the number.
pub proof fn lemma_small_values_are_exact(value: nat)
    requires
        1 <= value < 0x100_0000,
    ensures
        nearest_single(value) <= u32::MAX,
        match single_precision(nearest_single(value) as u32) {
            Some(number) => !number.negative && number.exponent <= 0 && number.mantissa == value * pow2(
                (-number.exponent) as nat,
            ),
            None => false,
        },
{
    lemma_rounded_mantissa_range(value);
    lemma_bit_length_bound(value);
    lemma2_to64();
    let digits = bit_length(value);
    if digits > 24 {
        lemma_pow2_strictly_increases(24, (digits - 1) as nat);
    }
    let up = (24 - digits) as nat;
    lemma_pow2_adds(digits, up);
    lemma_pow2_pos(up);
    assert(value * pow2(up) < pow2(digits) * pow2(up)) by (nonlinear_arith)
        requires
            value < pow2(digits),
            pow2(up) > 0,
    ;
    lemma_packed_decodes(digits + 126, rounded_mantissa(value));
}

/// A whole number from `2^24` on is encoded within half a unit of the last
/// place: the bit pattern decodes to a mantissa and an exponent whose
/// product misses the number by half of `2^(digits - 24)` at most.
pub proof fn lemma_large_values_are_nearest(value: nat)
    requires
        0x100_0000 <= value <= u32::MAX,
    ensures
        nearest_single(value) <= u32::MAX,
        match single_precision(nearest_single(value) as u32) {
            Some(number) => !number.negative && number.exponent >= 1 && 2 * (number.mantissa * pow2(
                number.exponent as nat,
            ) - value) <= pow2((bit_length(value) - 24) as nat) && 2 * (value - number.mantissa * pow2(
                number.exponent as nat,
            )) <= pow2((bit_length(value) - 24) as nat),
            None => false,
        },
{
    lemma_rounded_mantissa_range(value);
    lemma_bit_length_bound(value);
    lemma2_to64();
    let digits = bit_length(value);
    if digits <= 24 {
        if digits < 24 {
            lemma_pow2_strictly_increases(digits, 24);
        }
    }
    let down = (digits - 24) as nat;
    let unit = pow2(down);
    lemma_pow2_pos(down);
    let mantissa = rounded_mantissa(value);
    lemma_nearest_quotient(value, unit);
    if mantissa < 0x100_0000 {
        lemma_packed_decodes(digits + 126, mantissa);
    } else {
        assert(packed(digits + 126, mantissa) == packed(digits + 127, 0x80_0000));
        lemma_packed_decodes(digits + 127, 0x80_0000);
        vstd::arithmetic::power2::lemma_pow2_unfold(down + 1);
        assert(0x80_0000 * pow2(down + 1) == mantissa * unit) by (nonlinear_arith)
            requires
                pow2(down + 1) == 2 * unit,
                mantissa == 0x100_0000,
        ;
    }
}

/// The reciprocal is encoded with the mantissa nearest to `2^47` divided by
/// the mantissa of the number: their product misses `2^47` by half of the
/// number's mantissa at most.
pub proof fn lemma_reciprocal_is_nearest(value: nat)
    requires
        1 <= value <= u32::MAX,
        rounded_mantissa(value) < 0x100_0000,
    ensures
        nearest_reciprocal(value) == packed(
            (127 - bit_length(value)) as nat,
            nearest_quotient(pow2(47), rounded_mantissa(value)),
        ),
        2 * (nearest_quotient(pow2(47), rounded_mantissa(value)) * rounded_mantissa(value) - pow2(47))
            <= rounded_mantissa(value),
        2 * (pow2(47) - nearest_quotient(pow2(47), rounded_mantissa(value)) * rounded_mantissa(value))
            <= rounded_mantissa(value),
{
    lemma_rounded_mantissa_range(value);
    lemma_nearest_quotient(pow2(47), rounded_mantissa(value));
}

/// The number of binary digits of `value`.
fn binary_digits(value: u32) -> (digits: u32)
    ensures
        digits == bit_length(value as nat),
        digits <= 32,
{
    let mut rest = value;
    let mut digits: u32 = 0;
    proof {
        lemma_bit_length_u32(value as nat);
    }
    while rest != 0
        invariant
            bit_length(value as nat) == digits + bit_length(rest as nat),
            bit_length(value as nat) <= 32,
        decreases rest,
    {
        rest = rest / 2;
        digits = digits + 1;
    }
    digits
}

/// Divides, rounding to the nearest integer, ties to even.
fn round_divide(numerator: u64, denominator: u64) -> (rounded: u64)
    requires
        denominator >= 1,
        numerator < 0x8000_0000_0000_0000,
    ensures
        rounded == nearest_quotient(numerator as nat, denominator as nat),
{
    let quotient = numerator / denominator;
    let rest = numerator % denominator;
    if rest > denominator - rest || (rest == denominator - rest && quotient % 2 == 1) {
        quotient + 1
    } else {
        quotient
    }
}

/// The mantissa that `value` is rounded to, with the number of its digits.
fn mantissa_of(value: u32) -> (parts: (u32, u32))
    requires
        value >= 1,
    ensures
        parts.0 == bit_length(value as nat),
        parts.1 == rounded_mantissa(value as nat),
        1 <= parts.0 <= 32,
        0x80_0000 <= parts.1 <= 0x100_0000,
{
    let digits = binary_digits(value);
    proof {
        lemma_rounded_mantissa_range(value as nat);
        lemma2_to64();
    }
    if digits <= 24 {
        let unit = power_of_two(24 - digits);
        ((digits, (value as u128 * unit) as u32))
    } else {
        let unit = power_of_two(digits - 24);
        proof {
            lemma_pow2_strictly_increases((digits - 24) as nat, 9);
        }
        ((digits, round_divide(value as u64, unit as u64) as u32))
    }
}

/// The single-precision bit pattern nearest to `value`.
pub fn single_from(value: u32) -> (bits: u32)
    ensures
        bits == nearest_single(value as nat),
{
    if value == 0 {
        return 0;
    }
    let (digits, mantissa) = mantissa_of(value);
    (digits + 126) * 0x80_0000 + mantissa - 0x80_0000
}

/// The single-precision bit pattern nearest to the reciprocal of `value` as
/// a single-precision number.
pub fn reciprocal_from(value: u32) -> (bits: u32)
    ensures
        bits == nearest_reciprocal(value as nat),
{
    if value == 0 {
        return INFINITY;
    }
    let (digits, mantissa) = mantissa_of(value);
    if mantissa == 0x100_0000 {
        (126 - digits) * 0x80_0000 + 0x80_0000
    } else {
        proof {
            lemma2_to64();
            lemma2_to64_rest();
            let quotient = pow2(47) / (mantissa as nat);
            assert(pow2(47) == 0x8000_0000_0000);
            assert(0x80_0000 <= pow2(47) / (mantissa as nat) <= 0x100_0000) by (nonlinear_arith)
                requires
                    0x80_0000 <= mantissa < 0x100_0000,
                    pow2(47) == 0x8000_0000_0000,
            ;
        }
        let rounded = round_divide(0x8000_0000_0000, mantissa as u64);
        ((127 - digits) * 0x80_0000 + rounded as u32) - 0x80_0000
    }
}

/// The four words that a pass is told of an image of `size`.
pub fn size_words(size: Size) -> (words: [u32; 4])
    ensures
        words@ == size_vector(size),
{
    let words = [
        single_from(size.width),
        single_from(size.height),
        reciprocal_from(size.width),
        reciprocal_from(size.height),
    ];
    assert(words@ =~= size_vector(size));
    words
}

} // verus!
