//! The hash maps of a chain, kept in `rustc_hash`'s `FxHashMap`: user
//! parameters by name, lookup textures by position, and the uniform members
//! of a pass by what they are bound to.

use vstd::prelude::*;
use rustc_hash::{FxBuildHasher, FxHashMap};
use crate::filter_pass::BoundUniform;
use crate::framebuffer::Texture;

verus! {

#[verifier::external_type_specification]
#[verifier::external_body]
pub struct ExFxBuildHasher(FxBuildHasher);

/// What a parameter map holds: the bits of a value under each name.
pub uninterp spec fn parameter_values(map: FxHashMap<String, u32>) -> Map<Seq<char>, u32>;

/// What a lookup-texture map holds: a texture under each position.
pub uninterp spec fn lut_textures(map: FxHashMap<usize, Texture>) -> Map<usize, Texture>;

/// `FxHashMap::default` for parameters: a map that holds nothing.
#[verifier::external_body]
pub(crate) fn parameters_new() -> (fresh: FxHashMap<String, u32>)
    ensures
        parameter_values(fresh) == (Map::<Seq<char>, u32>::empty()),
{
    FxHashMap::default()
}

/// `HashMap::insert` on a parameter map: afterwards the name holds the
/// value, whatever it held before, and every other name holds what it held.
#[verifier::external_body]
pub(crate) fn parameters_insert(map: &mut FxHashMap<String, u32>, name: String, value: u32)
    ensures
        parameter_values(*final(map)) == parameter_values(*old(map)).insert(name@, value),
{
    map.insert(name, value);
}

/// `HashMap::get` on a parameter map: the value under the name, if the map
/// holds the name.
#[verifier::external_body]
pub(crate) fn parameters_get(map: &FxHashMap<String, u32>, name: &str) -> (value: Option<u32>)
    ensures
        value == (if parameter_values(*map).contains_key(name@) {
            Some(parameter_values(*map)[name@])
        } else {
            None
        }),
{
    map.get(name).copied()
}

/// `FxHashMap::default` for lookup textures: a map that holds nothing.
#[verifier::external_body]
pub(crate) fn luts_new() -> (fresh: FxHashMap<usize, Texture>)
    ensures
        lut_textures(fresh) == (Map::<usize, Texture>::empty()),
{
    FxHashMap::default()
}

/// `HashMap::insert` on a lookup-texture map: afterwards the position holds
/// the texture, whatever it held before, and every other position holds what
/// it held.
#[verifier::external_body]
pub(crate) fn luts_insert(map: &mut FxHashMap<usize, Texture>, index: usize, texture: Texture)
    ensures
        lut_textures(*final(map)) == lut_textures(*old(map)).insert(index, texture),
{
    map.insert(index, texture);
}

/// `HashMap::get` on a lookup-texture map: the texture under the position,
/// if the map holds the position.
#[verifier::external_body]
pub(crate) fn luts_get(map: &FxHashMap<usize, Texture>, index: usize) -> (texture: Option<Texture>)
    ensures
        texture == (if lut_textures(*map).contains_key(index) {
            Some(lut_textures(*map)[index])
        } else {
            None
        }),
{
    map.get(&index).copied()
}

/// What a map of uniform members holds: a member under each key.
pub uninterp spec fn bound_uniforms(map: FxHashMap<(u8, usize, usize), BoundUniform>) -> Map<
    (u8, usize, usize),
    BoundUniform,
>;

/// `FxHashMap::default` for uniform members: a map that holds nothing.
#[verifier::external_body]
pub(crate) fn bindings_new() -> (fresh: FxHashMap<(u8, usize, usize), BoundUniform>)
    ensures
        bound_uniforms(fresh) == (Map::<(u8, usize, usize), BoundUniform>::empty()),
{
    FxHashMap::default()
}

/// `HashMap::insert` on a map of uniform members: afterwards the key holds
/// the member, whatever it held before, and every other key holds what it
/// held.
#[verifier::external_body]
pub(crate) fn bindings_insert(
    map: &mut FxHashMap<(u8, usize, usize), BoundUniform>,
    key: (u8, usize, usize),
    member: BoundUniform,
)
    ensures
        bound_uniforms(*final(map)) == bound_uniforms(*old(map)).insert(key, member),
{
    map.insert(key, member);
}

/// `HashMap::get` on a map of uniform members: the member under the key, if
/// the map holds the key.
#[verifier::external_body]
pub(crate) fn bindings_get(map: &FxHashMap<(u8, usize, usize), BoundUniform>, key: (u8, usize, usize)) -> (member:
    Option<BoundUniform>)
    ensures
        member == (if bound_uniforms(*map).contains_key(key) {
            Some(bound_uniforms(*map)[key])
        } else {
            None
        }),
{
    map.get(&key).copied()
}

} // verus!
