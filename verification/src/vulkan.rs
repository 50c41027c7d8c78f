//! The chain of the explicit backend, as far as it is loaded: its passes with
//! their uniform storage and bindings.

use vstd::prelude::*;
use crate::error::FilterChainError;
use crate::filter_chain::ShaderPreset;
use rustc_hash::FxHashMap;
use crate::filter_pass::{
    bindings_of, build_bindings, distinct_members, held_bindings, BoundUniform, ShaderPassConfig,
};
use crate::maps::bound_uniforms;
use crate::semantics::ShaderReflection;
use crate::uniforms::{MemberOffset, UniformStorage};

verus! {

/// The size in bytes of a vertex attribute: two single-precision numbers.
pub const ATTRIBUTE_SIZE: u32 = 8;

/// One attribute of the quads' vertices.
#[derive(Clone, Copy, Debug, PartialEq, Eq, Structural)]
pub struct VertexAttribute {
    pub location: u32,
    pub binding: u32,
    /// The byte offset of the attribute in a vertex.
    pub offset: u32,
}

/// The attributes of the quads' vertices: the position at location 0 and,
/// right behind its two numbers, the texture coordinate at location 1.
pub fn vertex_attributes() -> (attributes: [VertexAttribute; 2])
    ensures
        attributes[0] == (VertexAttribute { location: 0, binding: 0, offset: 0 }),
        attributes[1] == (VertexAttribute { location: 1, binding: 0, offset: ATTRIBUTE_SIZE }),
{
    [
        VertexAttribute { location: 0, binding: 0, offset: 0 },
        VertexAttribute { location: 1, binding: 0, offset: ATTRIBUTE_SIZE },
    ]
}

/// One pass of a chain of the explicit backend.
pub struct VulkanFilterPass {
    pub reflection: ShaderReflection,
    pub uniform_storage: UniformStorage,
    /// The uniform members by what they are bound to and the block they
    /// live in.
    pub uniform_bindings: FxHashMap<(u8, usize, usize), BoundUniform>,
    pub config: ShaderPassConfig,
}

impl VulkanFilterPass {
    /// What holds of every pass: its uniform members are those that
    /// reflection declares, each inside its block, and its storage has the
    /// size of the blocks.
    pub open spec fn wf(&self) -> bool {
        &&& bound_uniforms(self.uniform_bindings) == held_bindings(
            bindings_of(self.reflection),
            bindings_of(self.reflection).len(),
        )
        &&& distinct_members(self.reflection)
        &&& self.reflection.members_fit()
        &&& self.uniform_storage@.ubo.len() == self.reflection.block_size(MemberOffset::Ubo(0))
        &&& self.uniform_storage@.push.len() == self.reflection.block_size(MemberOffset::PushConstant(0))
    }
}

/// Why a pass cannot be built of its reflection, if it cannot: a uniform
/// member outside its block, or a member declared twice in one block.
pub open spec fn reflection_error(reflection: ShaderReflection) -> Option<FilterChainError> {
    if !reflection.members_fit() {
        Some(FilterChainError::UniformOffsetOutOfRange)
    } else if !distinct_members(reflection) {
        Some(FilterChainError::ShaderReflectError)
    } else {
        None
    }
}

/// Whether `passes` are the passes built of these configurations and
/// reflections, each with zeroed uniform storage.
pub open spec fn built_of(
    passes: Seq<VulkanFilterPass>,
    configs: Seq<ShaderPassConfig>,
    reflections: Seq<ShaderReflection>,
) -> bool {
    &&& passes.len() == configs.len()
    &&& forall|i: int|
        0 <= i < passes.len() ==> {
            &&& (#[trigger] passes[i]).wf()
            &&& passes[i].config == configs[i]
            &&& passes[i].reflection == reflections[i]
            &&& passes[i].uniform_storage@.ubo == Seq::new(
                reflections[i].block_size(MemberOffset::Ubo(0)),
                |k: int| 0u8,
            )
            &&& passes[i].uniform_storage@.push == Seq::new(
                reflections[i].block_size(MemberOffset::PushConstant(0)),
                |k: int| 0u8,
            )
        }
}

/// A chain of the explicit backend.
pub struct FilterChainVulkan {
    pub passes: Vec<VulkanFilterPass>,
}

impl FilterChainVulkan {
    /// Builds the passes of a chain, one from each configuration and its
    /// reflection, each with zeroed uniform storage. The first pass that
    /// cannot be built decides the error.
    pub fn init_passes(configs: &Vec<ShaderPassConfig>, reflections: Vec<ShaderReflection>) -> (result: Result<
        Vec<VulkanFilterPass>,
        FilterChainError,
    >)
        ensures
            configs@.len() != reflections@.len() ==> result is Err && result->Err_0
                == FilterChainError::AllocationMismatch,
            configs@.len() == reflections@.len() ==> match result {
                Ok(passes) => built_of(passes@, configs@, reflections@) && forall|i: int|
                    0 <= i < reflections@.len() ==> reflection_error(#[trigger] reflections@[i]) is None,
                Err(error) => exists|i: int|
                    0 <= i < reflections@.len() && reflection_error(#[trigger] reflections@[i]) == Some(error)
                        && forall|j: int| 0 <= j < i ==> reflection_error(#[trigger] reflections@[j]) is None,
            },
    {
        if configs.len() != reflections.len() {
            return Err(FilterChainError::AllocationMismatch);
        }
        let ghost all = reflections@;
        let mut rest = reflections;
        let mut filters: Vec<VulkanFilterPass> = Vec::new();
        let mut index: usize = 0;
        while index < configs.len()
            invariant
                index <= configs@.len(),
                configs@.len() == all.len(),
                all == reflections@,
                rest@ == all.skip(index as int),
                forall|i: int| 0 <= i < index ==> reflection_error(#[trigger] all[i]) is None,
                built_of(filters@, configs@.take(index as int), all),
            decreases configs@.len() - index,
        {
            let reflection = rest.remove(0);
            assert(reflection == all[index as int]);
            assert(rest@ =~= all.skip(index + 1));
            if !reflection.check_members() {
                return Err(FilterChainError::UniformOffsetOutOfRange);
            }
            let uniform_bindings = match build_bindings(&reflection) {
                Some(held) => held,
                None => {
                    return Err(FilterChainError::ShaderReflectError);
                },
            };
            let uniform_storage = UniformStorage::new(reflection.ubo_size(), reflection.push_size());
            filters.push(VulkanFilterPass { reflection, uniform_storage, uniform_bindings, config: configs[index] });
            index = index + 1;
        }
        assert(configs@.take(index as int) =~= configs@);
        Ok(filters)
    }

    /// Loads a chain from a parsed preset and the reflection of each of its
    /// passes.
    pub fn load_from_preset(preset: ShaderPreset, reflections: Vec<ShaderReflection>) -> (result: Result<
        FilterChainVulkan,
        FilterChainError,
    >)
        ensures
            preset.shaders@.len() != reflections@.len() ==> result is Err && result->Err_0
                == FilterChainError::AllocationMismatch,
            preset.shaders@.len() == reflections@.len() ==> match result {
                Ok(chain) => built_of(chain.passes@, preset.shaders@, reflections@) && forall|i: int|
                    0 <= i < reflections@.len() ==> reflection_error(#[trigger] reflections@[i]) is None,
                Err(error) => exists|i: int|
                    0 <= i < reflections@.len() && reflection_error(#[trigger] reflections@[i]) == Some(error)
                        && forall|j: int| 0 <= j < i ==> reflection_error(#[trigger] reflections@[j]) is None,
            },
    {
        match Self::init_passes(&preset.shaders, reflections) {
            Ok(passes) => Ok(FilterChainVulkan { passes }),
            Err(error) => Err(error),
        }
    }
}

} // verus!
