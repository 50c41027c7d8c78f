//! Output sizes from scale rules, and mip chain lengths.
//!
//! A scale factor is held exactly, as a signed integer times a power of two,
//! so that every size is computed in integer arithmetic.

use vstd::prelude::*;
use vstd::arithmetic::power2::{pow2, lemma_pow2_pos, lemma_pow2_unfold, lemma_pow2_strictly_increases, lemma2_to64, lemma2_to64_rest};
use crate::common::Size;

verus! {

/// Number of binary digits of `n`: 0 for 0, otherwise `1 + floor(log2(n))`.
pub open spec fn bit_length(n: nat) -> nat
    decreases n,
{
    if n == 0 {
        0
    } else {
        1 + bit_length(n / 2)
    }
}

/// A number with `d` binary digits lies below `2^d`.
pub proof fn lemma_bit_length_bound(n: nat)
    ensures
        n < pow2(bit_length(n)),
        n > 0 ==> pow2((bit_length(n) - 1) as nat) <= n,
    decreases n,
{
    lemma2_to64();
    if n > 0 {
        lemma_bit_length_bound(n / 2);
        lemma_pow2_unfold(bit_length(n));
        if n / 2 > 0 {
            lemma_pow2_unfold((bit_length(n) - 1) as nat);
        }
    }
}

/// A value that fits 32 bits has at most 32 binary digits.
pub proof fn lemma_bit_length_u32(n: nat)
    requires
        n <= u32::MAX,
    ensures
        bit_length(n) <= 32,
{
    lemma_bit_length_bound(n);
    lemma2_to64();
    if bit_length(n) > 32 {
        let d = (bit_length(n) - 1) as nat;
        if d > 32 {
            lemma_pow2_strictly_increases(32, d);
        }
    }
}

/// `MipmapSize::calculate_miplevels` of librashader-runtime on a
/// `Size<u32>`: it counts how often the longer side can be halved before
/// it reaches zero, which is the number of binary digits of that side.
#[verifier::external_body]
pub(crate) fn full_mip_chain(width: u32, height: u32) -> (levels: u32)
    ensures
        levels == bit_length((Size { width, height }).longest()),
{
    librashader_runtime::scaling::MipmapSize::calculate_miplevels(
        librashader_common::Size::new(width, height),
    )
}

/// Length of a full mip chain for an image of `size`:
/// `1 + floor(log2(max(width, height)))`, and 0 for an empty image.
pub fn calc_miplevel(size: Size) -> (levels: u32)
    ensures
        levels == bit_length(size.longest()),
        levels <= 32,
        size.longest() > 0 ==> levels >= 1,
{
    proof {
        lemma_bit_length_u32(size.longest());
    }
    full_mip_chain(size.width, size.height)
}

/// One side of an image at mip level `level`: halved `level` times, at least 1.
pub open spec fn mip_extent(extent: nat, level: nat) -> nat {
    let halved = extent / pow2(level);
    if halved >= 1 {
        halved
    } else {
        1
    }
}

/// `2^exponent` as a machine integer.
pub(crate) fn power_of_two(exponent: u32) -> (value: u128)
    requires
        exponent <= 64,
    ensures
        value == pow2(exponent as nat),
        1 <= value <= 0x1_0000_0000_0000_0000,
{
    let mut value: u128 = 1;
    let mut done: u32 = 0;
    proof {
        lemma2_to64();
        lemma2_to64_rest();
    }
    while done < exponent
        invariant
            done <= exponent <= 64,
            value == pow2(done as nat),
            1 <= value <= pow2(64),
            pow2(64) == 0x1_0000_0000_0000_0000,
        decreases exponent - done,
    {
        proof {
            lemma_pow2_unfold((done + 1) as nat);
            if done + 1 < 64 {
                lemma_pow2_strictly_increases((done + 1) as nat, 64);
            }
        }
        value = value * 2;
        done = done + 1;
    }
    value
}

/// The size of mip level `level` of an image of `size`.
pub fn scale_mipmap(size: Size, level: u32) -> (scaled: Size)
    ensures
        scaled.width == mip_extent(size.width as nat, level as nat),
        scaled.height == mip_extent(size.height as nat, level as nat),
{
    if level >= 32 {
        proof {
            lemma2_to64();
            if level > 32 {
                lemma_pow2_strictly_increases(32, level as nat);
            }
            vstd::arithmetic::div_mod::lemma_basic_div(size.width as int, pow2(level as nat) as int);
            vstd::arithmetic::div_mod::lemma_basic_div(size.height as int, pow2(level as nat) as int);
        }
        return Size { width: 1, height: 1 };
    }
    let divisor = power_of_two(level);
    proof {
        lemma2_to64();
        if level < 31 {
            lemma_pow2_strictly_increases(level as nat, 31);
        }
    }
    let width = (size.width as u128 / divisor) as u32;
    let height = (size.height as u128 / divisor) as u32;
    Size { width: if width >= 1 { width } else { 1 }, height: if height >= 1 { height } else { 1 } }
}

/// An exact scale factor: `mantissa * 2^exponent`, negated when `negative`.
#[derive(Clone, Copy, Debug, PartialEq, Eq, Structural)]
pub struct ScaleFactor {
    pub negative: bool,
    pub mantissa: u32,
    pub exponent: i32,
}

/// Which length a factor multiplies.
#[derive(Clone, Copy, Debug, PartialEq, Eq, Structural)]
pub enum ScaleType {
    /// The size of the pass's source image.
    Source,
    /// The factor itself is the length in texels.
    Absolute,
    /// The size of the caller's viewport.
    Viewport,
    /// The size of the frame's original input.
    Original,
}

/// The scale rule of one axis.
#[derive(Clone, Copy, Debug, PartialEq, Eq, Structural)]
pub struct Scaling {
    pub scale_type: ScaleType,
    pub factor: ScaleFactor,
}

/// The scale rule of a pass, one rule per axis.
#[derive(Clone, Copy, Debug, PartialEq, Eq, Structural)]
pub struct Scale2D {
    pub x: Scaling,
    pub y: Scaling,
}

/// `mantissa * 2^exponent * base`, rounded to the nearest integer, halves up.
pub open spec fn rounded_product(mantissa: nat, exponent: int, base: nat) -> nat {
    if exponent >= 0 {
        mantissa * base * pow2(exponent as nat)
    } else {
        (mantissa * base + pow2((-exponent - 1) as nat)) / pow2((-exponent) as nat)
    }
}

/// The number that a single-precision bit pattern encodes, if it is finite.
pub open spec fn single_precision(bits: u32) -> Option<ScaleFactor> {
    let negative = bits / 0x8000_0000 == 1;
    let biased = (bits / 0x80_0000) % 256;
    let fraction = bits % 0x80_0000;
    if biased == 255 {
        None
    } else if biased == 0 {
        Some(ScaleFactor { negative, mantissa: fraction, exponent: -149i32 })
    } else {
        Some(ScaleFactor { negative, mantissa: (fraction + 0x80_0000) as u32, exponent: (biased - 150) as i32 })
    }
}

impl ScaleFactor {
    /// The factor 1.
    pub open spec fn unit() -> ScaleFactor {
        ScaleFactor { negative: false, mantissa: 1, exponent: 0 }
    }

    /// Whether the factor equals 1, in whichever way it is written.
    pub open spec fn is_one(self) -> bool {
        &&& !self.negative
        &&& self.exponent <= 0
        &&& self.mantissa == pow2((-self.exponent) as nat)
    }

    /// `round(self * base)`, halves away from zero, kept within `1..=u32::MAX`.
    pub open spec fn scaled(self, base: nat) -> nat {
        let exact = rounded_product(self.mantissa as nat, self.exponent as int, base);
        if self.negative || exact < 1 {
            1
        } else if exact > u32::MAX {
            u32::MAX as nat
        } else {
            exact
        }
    }

    /// The whole number `count`.
    pub fn from_integer(count: i32) -> (factor: ScaleFactor)
        ensures
            factor.exponent == 0,
            factor.negative == (count < 0),
            factor.mantissa == (if count < 0 { -count } else { count as int }),
    {
        if count < 0 {
            ScaleFactor { negative: true, mantissa: (-(count as i64)) as u32, exponent: 0 }
        } else {
            ScaleFactor { negative: false, mantissa: count as u32, exponent: 0 }
        }
    }

    /// Decodes a single-precision bit pattern. Infinities and NaNs have no
    /// factor.
    pub fn from_bits(bits: u32) -> (factor: Option<ScaleFactor>)
        ensures
            factor == single_precision(bits),
    {
        let negative = bits / 0x8000_0000 == 1;
        let biased = (bits / 0x80_0000) % 256;
        let fraction = bits % 0x80_0000;
        if biased == 255 {
            None
        } else if biased == 0 {
            Some(ScaleFactor { negative, mantissa: fraction, exponent: -149 })
        } else {
            Some(ScaleFactor { negative, mantissa: fraction + 0x80_0000, exponent: biased as i32 - 150 })
        }
    }

    /// Scales `base` by this factor.
    pub fn apply(&self, base: u32) -> (length: u32)
        ensures
            length == self.scaled(base as nat),
            length >= 1,
    {
        proof {
            assert(self.mantissa as nat * base as nat <= 0xFFFF_FFFF * 0xFFFF_FFFF) by (nonlinear_arith)
                requires
                    self.mantissa <= 0xFFFF_FFFF,
                    base <= 0xFFFF_FFFF,
            ;
            lemma2_to64();
            lemma2_to64_rest();
        }
        let product: u64 = self.mantissa as u64 * base as u64;
        if self.exponent >= 0 {
            if self.negative || product == 0 {
                proof {
                    assert(product == 0 ==> product as nat * pow2(self.exponent as nat) == 0) by (nonlinear_arith);
                }
                return 1;
            }
            if self.exponent >= 32 {
                proof {
                    if self.exponent > 32 {
                        lemma_pow2_strictly_increases(32, self.exponent as nat);
                    }
                    assert(product as nat * pow2(self.exponent as nat) > u32::MAX) by (nonlinear_arith)
                        requires
                            product >= 1,
                            pow2(self.exponent as nat) >= 0x1_0000_0000,
                    ;
                }
                return u32::MAX;
            }
            let factor = power_of_two(self.exponent as u32);
            proof {
                lemma_pow2_strictly_increases(self.exponent as nat, 32);
                assert(product as nat * factor as nat <= 0xFFFF_FFFF_FFFF_FFFF * 0x1_0000_0000) by (nonlinear_arith)
                    requires
                        product <= 0xFFFF_FFFF_FFFF_FFFF,
                        factor <= 0x1_0000_0000,
                ;
                assert(product as nat * factor as nat >= 1) by (nonlinear_arith)
                    requires
                        product >= 1,
                        factor >= 1,
                ;
            }
            let exact: u128 = product as u128 * factor;
            if exact > u32::MAX as u128 {
                u32::MAX
            } else {
                exact as u32
            }
        } else {
            let shift: i64 = -(self.exponent as i64);
            if self.negative {
                return 1;
            }
            if shift > 64 {
                proof {
                    let half = pow2((shift - 1) as nat);
                    lemma_pow2_unfold(shift as nat);
                    if shift - 1 > 64 {
                        lemma_pow2_strictly_increases(64, (shift - 1) as nat);
                    }
                    vstd::arithmetic::div_mod::lemma_basic_div((product + half) as int, (2 * half) as int);
                }
                return 1;
            }
            let half = power_of_two((shift - 1) as u32);
            proof {
                lemma_pow2_unfold(shift as nat);
                lemma_pow2_pos(shift as nat);
                if shift - 1 < 63 {
                    lemma_pow2_strictly_increases((shift - 1) as nat, 63);
                }
            }
            let exact: u128 = (product as u128 + half) / (2 * half);
            if exact < 1 {
                1
            } else if exact > u32::MAX as u128 {
                u32::MAX
            } else {
                exact as u32
            }
        }
    }
}

impl Scaling {
    /// The length that the factor multiplies, given the three sizes' lengths
    /// along this axis.
    pub open spec fn base(self, source: nat, viewport: nat, original: nat) -> nat {
        match self.scale_type {
            ScaleType::Source => source,
            ScaleType::Absolute => 1,
            ScaleType::Viewport => viewport,
            ScaleType::Original => original,
        }
    }

    /// The output length along this axis.
    pub open spec fn resolved(self, source: nat, viewport: nat, original: nat) -> nat {
        self.factor.scaled(self.base(source, viewport, original))
    }

    /// Resolves this axis.
    pub fn resolve(&self, source: u32, viewport: u32, original: u32) -> (length: u32)
        ensures
            length == self.resolved(source as nat, viewport as nat, original as nat),
            length >= 1,
    {
        let base = match self.scale_type {
            ScaleType::Source => source,
            ScaleType::Absolute => 1,
            ScaleType::Viewport => viewport,
            ScaleType::Original => original,
        };
        self.factor.apply(base)
    }
}

impl Scale2D {
    /// The output size of a pass with this rule.
    pub open spec fn resolved(self, source: Size, viewport: Size, original: Size) -> Size {
        Size {
            width: self.x.resolved(source.width as nat, viewport.width as nat, original.width as nat) as u32,
            height: self.y.resolved(source.height as nat, viewport.height as nat, original.height as nat) as u32,
        }
    }
}

/// Resolves a pass's scale rule against the source, viewport and original
/// sizes. Each axis is computed on its own; neither comes out below 1.
pub fn resolve_scale(scaling: Scale2D, source: Size, viewport: Size, original: Size) -> (size: Size)
    ensures
        size == scaling.resolved(source, viewport, original),
        size.width >= 1,
        size.height >= 1,
{
    Size {
        width: scaling.x.resolve(source.width, viewport.width, original.width),
        height: scaling.y.resolve(source.height, viewport.height, original.height),
    }
}

/// A factor of one applied to a positive length gives that length back.
pub proof fn lemma_unit_factor(factor: ScaleFactor, base: nat)
    requires
        factor.is_one(),
        1 <= base <= u32::MAX,
    ensures
        factor.scaled(base) == base,
{
    let shift = (-factor.exponent) as nat;
    let whole = pow2(shift);
    lemma_pow2_pos(shift);
    if factor.exponent == 0 {
        lemma2_to64();
        assert(whole * base * 1 == base) by (nonlinear_arith)
            requires
                whole == 1,
        ;
    } else {
        let half = pow2((shift - 1) as nat);
        lemma_pow2_unfold(shift);
        lemma_pow2_pos((shift - 1) as nat);
        assert((whole * base + half) / whole == base) by (nonlinear_arith)
            requires
                whole == 2 * half,
                half >= 1,
        ;
    }
}

/// The single-precision bit pattern of the number 1 decodes to a factor of
/// one.
pub proof fn lemma_one_decodes_to_one()
    ensures
        single_precision(0x3F80_0000) is Some,
        single_precision(0x3F80_0000)->0.is_one(),
{
    lemma2_to64();
}

/// Scaling the source by one on both axes leaves its size unchanged, for
/// every source without an empty side.
pub proof fn lemma_unit_source_scale(scaling: Scale2D, source: Size, viewport: Size, original: Size)
    requires
        scaling.x.scale_type == ScaleType::Source,
        scaling.y.scale_type == ScaleType::Source,
        scaling.x.factor.is_one(),
        scaling.y.factor.is_one(),
        source.width >= 1,
        source.height >= 1,
    ensures
        scaling.resolved(source, viewport, original) == source,
{
    lemma_unit_factor(scaling.x.factor, source.width as nat);
    lemma_unit_factor(scaling.y.factor, source.height as nat);
}

} // verus!
