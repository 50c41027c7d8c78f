//! What reflection reports of a compiled pass: its uniform blocks, the
//! members in them, and its texture binding points.

use vstd::prelude::*;
use crate::uniforms::{fits, MemberOffset};

verus! {

/// The built-in values that a uniform member may ask for.
#[derive(Clone, Copy, Debug, PartialEq, Eq, Structural)]
pub enum UniqueSemantics {
    /// The model-view-projection matrix, four by four.
    MVP,
    /// The size of the pass's render target.
    Output,
    /// The size of the caller's viewport.
    FinalViewport,
    /// The frame counter, reduced by the pass's modulus.
    FrameCount,
    /// The direction of play: 1 forwards, -1 backwards.
    FrameDirection,
    /// A user parameter; such a member carries no built-in value.
    FloatParameter,
}

/// The roles that a texture of a pass may have.
#[derive(Clone, Copy, Debug, PartialEq, Eq, Structural)]
pub enum TextureSemantics {
    /// The input of the frame.
    Original,
    /// The output of the previous pass; the frame's input for the first.
    Source,
    /// The input of the frame `index` frames ago.
    OriginalHistory,
    /// The output of the pass `index` in this frame.
    PassOutput,
    /// The output of the pass `index` in the previous frame.
    PassFeedback,
    /// The lookup texture `index` of the preset.
    User,
}

/// Where the immediate backend finds a uniform in each stage; a negative
/// location says that the stage does not use it.
#[derive(Clone, Copy, Debug, PartialEq, Eq, Structural)]
pub struct UniformLocation {
    pub vertex: i32,
    pub fragment: i32,
}

/// A user parameter as a uniform member.
#[derive(Clone, Debug)]
pub struct ParameterMeta {
    /// The parameter's name.
    pub id: String,
    pub offset: MemberOffset,
    pub location: UniformLocation,
    /// The bits of the value that the shader source declares as initial.
    pub initial: u32,
}

/// A built-in value as a uniform member.
#[derive(Clone, Copy, Debug, PartialEq, Eq, Structural)]
pub struct VariableMeta {
    pub semantics: UniqueSemantics,
    pub offset: MemberOffset,
    pub location: UniformLocation,
}

/// The size of a texture as a uniform member.
#[derive(Clone, Copy, Debug, PartialEq, Eq, Structural)]
pub struct TextureSizeMeta {
    pub semantics: TextureSemantics,
    pub index: usize,
    pub offset: MemberOffset,
    pub location: UniformLocation,
}

/// A texture binding point.
#[derive(Clone, Copy, Debug, PartialEq, Eq, Structural)]
pub struct TextureMeta {
    pub semantics: TextureSemantics,
    pub index: usize,
    pub binding: u32,
}

/// The uniform buffer block of a pass.
#[derive(Clone, Copy, Debug, PartialEq, Eq, Structural)]
pub struct UboReflection {
    pub binding: u32,
    pub size: u32,
}

/// The push-constant block of a pass.
#[derive(Clone, Copy, Debug, PartialEq, Eq, Structural)]
pub struct PushReflection {
    pub size: u32,
}

/// Every binding that a pass declares.
#[derive(Clone, Debug)]
pub struct BindingMeta {
    pub parameter_meta: Vec<ParameterMeta>,
    pub variable_meta: Vec<VariableMeta>,
    pub texture_meta: Vec<TextureMeta>,
    pub texture_size_meta: Vec<TextureSizeMeta>,
}

/// The reflection of one pass.
#[derive(Clone, Debug)]
pub struct ShaderReflection {
    pub ubo: Option<UboReflection>,
    pub push_constant: Option<PushReflection>,
    pub meta: BindingMeta,
}

impl UniqueSemantics {
    /// The number of 32-bit words that the value takes.
    pub open spec fn words(self) -> nat {
        match self {
            UniqueSemantics::MVP => 16,
            UniqueSemantics::Output => 4,
            UniqueSemantics::FinalViewport => 4,
            UniqueSemantics::FrameCount => 1,
            UniqueSemantics::FrameDirection => 1,
            UniqueSemantics::FloatParameter => 1,
        }
    }

    pub fn word_count(&self) -> (count: usize)
        ensures
            count == self.words(),
    {
        match self {
            UniqueSemantics::MVP => 16,
            UniqueSemantics::Output => 4,
            UniqueSemantics::FinalViewport => 4,
            UniqueSemantics::FrameCount => 1,
            UniqueSemantics::FrameDirection => 1,
            UniqueSemantics::FloatParameter => 1,
        }
    }
}

impl ShaderReflection {
    /// The size in bytes of the block that `offset` points into; 0 where the
    /// pass declares no such block.
    pub open spec fn block_size(&self, offset: MemberOffset) -> nat {
        match offset {
            MemberOffset::Ubo(_) => match self.ubo {
                Some(ubo) => ubo.size as nat,
                None => 0,
            },
            MemberOffset::PushConstant(_) => match self.push_constant {
                Some(push) => push.size as nat,
                None => 0,
            },
        }
    }

    /// Whether `count` words at `offset` lie inside the declared block.
    pub open spec fn holds(&self, offset: MemberOffset, count: nat) -> bool {
        fits(self.block_size(offset), offset.bytes() as nat, count)
    }

    /// Whether every member lies inside the block declared for it.
    pub open spec fn members_fit(&self) -> bool {
        &&& forall|i: int|
            0 <= i < self.meta.variable_meta@.len() ==> self.holds(
                (#[trigger] self.meta.variable_meta@[i]).offset,
                self.meta.variable_meta@[i].semantics.words(),
            )
        &&& forall|i: int|
            0 <= i < self.meta.texture_size_meta@.len() ==> self.holds(
                (#[trigger] self.meta.texture_size_meta@[i]).offset,
                4,
            )
        &&& forall|i: int|
            0 <= i < self.meta.parameter_meta@.len() ==> self.holds(
                (#[trigger] self.meta.parameter_meta@[i]).offset,
                1,
            )
    }

    /// The size in bytes of the uniform buffer block.
    pub fn ubo_size(&self) -> (size: usize)
        ensures
            size == self.block_size(MemberOffset::Ubo(0)),
    {
        match self.ubo {
            Some(ubo) => ubo.size as usize,
            None => 0,
        }
    }

    /// The size in bytes of the push-constant block.
    pub fn push_size(&self) -> (size: usize)
        ensures
            size == self.block_size(MemberOffset::PushConstant(0)),
    {
        match self.push_constant {
            Some(push) => push.size as usize,
            None => 0,
        }
    }

    /// Whether `count` words at `offset` lie inside the declared block.
    pub fn contains(&self, offset: MemberOffset, count: usize) -> (inside: bool)
        requires
            count <= 16,
        ensures
            inside == self.holds(offset, count as nat),
    {
        let (size, start) = match offset {
            MemberOffset::Ubo(start) => (self.ubo_size(), start),
            MemberOffset::PushConstant(start) => (self.push_size(), start),
        };
        start <= size && 4 * count <= size - start
    }

    /// Checks every member against the block declared for it.
    pub fn check_members(&self) -> (inside: bool)
        ensures
            inside == self.members_fit(),
    {
        let mut i: usize = 0;
        while i < self.meta.variable_meta.len()
            invariant
                i <= self.meta.variable_meta@.len(),
                forall|k: int|
                    0 <= k < i ==> self.holds(
                        (#[trigger] self.meta.variable_meta@[k]).offset,
                        self.meta.variable_meta@[k].semantics.words(),
                    ),
            decreases self.meta.variable_meta@.len() - i,
        {
            let member = &self.meta.variable_meta[i];
            if !self.contains(member.offset, member.semantics.word_count()) {
                return false;
            }
            i = i + 1;
        }
        let mut j: usize = 0;
        while j < self.meta.texture_size_meta.len()
            invariant
                j <= self.meta.texture_size_meta@.len(),
                forall|k: int|
                    0 <= k < j ==> self.holds((#[trigger] self.meta.texture_size_meta@[k]).offset, 4),
            decreases self.meta.texture_size_meta@.len() - j,
        {
            if !self.contains(self.meta.texture_size_meta[j].offset, 4) {
                return false;
            }
            j = j + 1;
        }
        let mut k: usize = 0;
        while k < self.meta.parameter_meta.len()
            invariant
                k <= self.meta.parameter_meta@.len(),
                forall|n: int| 0 <= n < k ==> self.holds((#[trigger] self.meta.parameter_meta@[n]).offset, 1),
            decreases self.meta.parameter_meta@.len() - k,
        {
            if !self.contains(self.meta.parameter_meta[k].offset, 1) {
                return false;
            }
            k = k + 1;
        }
        true
    }
}

} // verus!
