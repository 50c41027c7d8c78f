//! The vertex data of the two quads that a chain draws.

use vstd::prelude::*;
use crate::framebuffer::QuadType;
use crate::ieee::ONE;

verus! {

/// The bit pattern of the number -1.
pub const MINUS_ONE: u32 = 0xBF80_0000;

/// The bit pattern of the number 2.
pub const TWO: u32 = 0x4000_0000;

/// The number of 32-bit words of one vertex: a position of four, a texture
/// coordinate of two.
pub const VERTEX_WORDS: usize = 6;

/// The low end of a quad's coordinates: -1 off screen, 0 for the final quad.
pub open spec fn low(quad: QuadType) -> u32 {
    match quad {
        QuadType::Offscreen => MINUS_ONE,
        QuadType::Final => 0,
    }
}

/// Vertex `corner` of a quad, as single-precision bits: its position, with
/// depth 0 and weight 1, then its texture coordinate. The corners come in
/// the order of a triangle strip: low left, low right, high left, high
/// right; positions run from the quad's low end to 1, texture coordinates
/// from 0 to 1.
pub open spec fn vertex(quad: QuadType, corner: int) -> Seq<u32> {
    let right = corner % 2 == 1;
    let high = corner / 2 == 1;
    seq![
        if right { ONE } else { low(quad) },
        if high { ONE } else { low(quad) },
        0u32,
        ONE,
        if right { ONE } else { 0u32 },
        if high { ONE } else { 0u32 },
    ]
}

/// The four vertices of a quad, one after the other.
pub open spec fn quad_data(quad: QuadType) -> Seq<u32> {
    vertex(quad, 0) + vertex(quad, 1) + vertex(quad, 2) + vertex(quad, 3)
}

/// The vertex data to upload for a quad.
pub fn vertices(quad: QuadType) -> (data: [u32; 24])
    ensures
        data@ == quad_data(quad),
{
    let low: u32 = match quad {
        QuadType::Offscreen => MINUS_ONE,
        QuadType::Final => 0,
    };
    let data = [
        low, low, 0, ONE, 0, 0,
        ONE, low, 0, ONE, ONE, 0,
        low, ONE, 0, ONE, 0, ONE,
        ONE, ONE, 0, ONE, ONE, ONE,
    ];
    assert(data@ =~= quad_data(quad));
    data
}

} // verus!
