//! One pass of a chain: its reflection, its uniform storage, and the draw
//! that renders it.

use vstd::prelude::*;
use rustc_hash::FxHashMap;
use crate::common::{FilterMode, ImageFormat, Size, WrapMode};
use crate::error::FilterChainError;
use crate::framebuffer::{Command, Gl3Framebuffer, QuadType, Texture};
use crate::ieee::{size_vector, size_words, ONE};
use crate::quad::{MINUS_ONE, TWO};
use crate::maps::{
    bindings_get, bindings_insert, bindings_new, bound_uniforms, lut_textures, luts_get, parameter_values,
    parameters_get,
};
use crate::samplers::SamplerSet;
use crate::scaling::Scale2D;
use crate::semantics::{ParameterMeta, ShaderReflection, TextureSemantics, UniformLocation, UniqueSemantics};
use crate::uniforms::{MemberOffset, UniformStorage, UniformWrite, RING};

verus! {

/// What a preset declares of a pass.
#[derive(Clone, Copy, Debug, PartialEq, Eq, Structural)]
pub struct ShaderPassConfig {
    /// How the output of this pass is filtered when a later pass samples it.
    pub filter: FilterMode,
    /// How the output of this pass is addressed outside its bounds.
    pub wrap_mode: WrapMode,
    /// The modulus of the frame counter that this pass sees; 0 for none.
    pub frame_count_mod: u32,
    /// Whether the output of this pass gets a mip chain.
    pub mipmap: bool,
    /// The size of the output relative to its inputs.
    pub scaling: Scale2D,
    /// The format of the output; `Unknown` for the chain's default.
    pub format: ImageFormat,
}

/// The value that a uniform member takes.
#[derive(Clone, Copy, Debug, PartialEq, Eq, Structural)]
pub enum UniformBinding {
    /// The user parameter at this position of the pass's parameter list.
    Parameter(usize),
    /// A built-in value.
    SemanticVariable(UniqueSemantics),
    /// The size of the texture with this role and index.
    TextureSize(TextureSemantics, usize),
}

/// A uniform member with where it lives.
#[derive(Clone, Copy, Debug, PartialEq, Eq, Structural)]
pub struct BoundUniform {
    pub binding: UniformBinding,
    pub offset: MemberOffset,
    pub location: UniformLocation,
}

/// The caller's render target for a frame, with the rectangle to draw into.
#[derive(Clone, Copy, Debug)]
pub struct Viewport {
    pub x: i32,
    pub y: i32,
    pub output: Gl3Framebuffer,
    /// The caller's matrix, column after column, as single-precision bits.
    pub mvp: Option<[u32; 16]>,
}

/// Where a pass renders to.
#[derive(Clone, Copy, Debug)]
pub struct RenderTarget {
    pub framebuffer: Gl3Framebuffer,
    pub mvp: Option<[u32; 16]>,
    pub x: i32,
    pub y: i32,
}

/// What a caller may change of a loaded chain.
pub struct FilterMutable {
    /// The number of leading passes that are run.
    pub passes_enabled: usize,
    /// The user's values of parameters, as single-precision bits by name.
    pub parameters: FxHashMap<String, u32>,
}

/// What the passes of a chain share.
pub struct FilterCommon {
    pub config: FilterMutable,
    /// The lookup textures by their position in the preset.
    pub luts: FxHashMap<usize, Texture>,
    pub samplers: SamplerSet,
    /// The outputs of the passes that ran in this frame.
    pub output_textures: Vec<Texture>,
    /// The outputs of the passes in the previous frame.
    pub feedback_textures: Vec<Texture>,
    /// The inputs of earlier frames, most recent first.
    pub history_textures: Vec<Texture>,
}

/// The identity matrix, column after column, as single-precision bits.
pub open spec fn identity_matrix() -> Seq<u32> {
    Seq::new(16, |i: int| if i % 5 == 0 { ONE } else { 0u32 })
}

/// The matrix that takes the unit square onto the whole of a target, column
/// after column, as single-precision bits: twice the position, less one,
/// in both directions, at depth 0.
pub open spec fn viewport_matrix() -> Seq<u32> {
    seq![
        TWO, 0u32, 0u32, 0u32,
        0u32, TWO, 0u32, 0u32,
        0u32, 0u32, 0u32, 0u32,
        MINUS_ONE, MINUS_ONE, 0u32, ONE,
    ]
}

/// The matrix that a target without one is drawn with: the caller's target,
/// whose quad spans the unit square, with the matrix that spreads it over
/// the target; a target of the chain, whose quad spans the target already,
/// with the identity.
pub open spec fn default_matrix(is_final: bool) -> Seq<u32> {
    if is_final {
        viewport_matrix()
    } else {
        identity_matrix()
    }
}

/// The matrix that a target without one is drawn with.
pub fn default_mvp(is_final: bool) -> (matrix: [u32; 16])
    ensures
        matrix@ == default_matrix(is_final),
{
    if is_final {
        let matrix = [TWO, 0, 0, 0, 0, TWO, 0, 0, 0, 0, 0, 0, MINUS_ONE, MINUS_ONE, 0, ONE];
        assert(matrix@ =~= viewport_matrix());
        matrix
    } else {
        let matrix = [ONE, 0, 0, 0, 0, ONE, 0, 0, 0, 0, ONE, 0, 0, 0, 0, ONE];
        assert(matrix@ =~= identity_matrix());
        matrix
    }
}

/// The bits of a signed integer in two's complement.
pub open spec fn signed_bits(value: i32) -> u32 {
    if value >= 0 {
        value as u32
    } else {
        (value + 0x1_0000_0000) as u32
    }
}

/// Four zero words.
pub open spec fn zero_vector() -> Seq<u32> {
    seq![0u32, 0u32, 0u32, 0u32]
}

/// The outputs that the pass at position `index` can see: those of the
/// passes before it.
pub open spec fn earlier(outputs: Seq<Texture>, index: nat) -> Seq<Texture> {
    if index <= outputs.len() {
        outputs.take(index as int)
    } else {
        outputs
    }
}

/// Everything that the semantics of a pass resolve against in one draw.
pub struct Bindings {
    /// The position of the pass in the chain.
    pub index: nat,
    pub frame_count: u32,
    pub frame_direction: i32,
    pub mvp: Seq<u32>,
    /// The size of the render target.
    pub output: Size,
    /// The size of the caller's viewport.
    pub final_viewport: Size,
    pub original: Texture,
    pub source: Texture,
    pub history: Seq<Texture>,
    pub outputs: Seq<Texture>,
    pub feedback: Seq<Texture>,
    pub luts: Map<usize, Texture>,
    pub parameters: Map<Seq<char>, u32>,
}

impl Bindings {
    /// The texture that has the role `semantics` with index `index`, if
    /// there is one: history reaches as far back as it is kept, a pass sees
    /// the outputs of the passes before it, and a lookup texture has to be
    /// loaded.
    pub open spec fn source_of(self, semantics: TextureSemantics, index: nat) -> Option<Texture> {
        match semantics {
            TextureSemantics::Original => Some(self.original),
            TextureSemantics::Source => Some(self.source),
            TextureSemantics::OriginalHistory => if index == 0 {
                Some(self.original)
            } else if index <= self.history.len() {
                Some(self.history[index - 1])
            } else {
                None
            },
            TextureSemantics::PassOutput => if index < self.index && index < self.outputs.len() {
                Some(self.outputs[index as int])
            } else {
                None
            },
            TextureSemantics::PassFeedback => if index < self.feedback.len() {
                Some(self.feedback[index as int])
            } else {
                None
            },
            TextureSemantics::User => if index <= usize::MAX && self.luts.contains_key(index as usize) {
                Some(self.luts[index as usize])
            } else {
                None
            },
        }
    }

    /// The texture bound for a role: its source, or no image.
    pub open spec fn texture(self, semantics: TextureSemantics, index: nat) -> Texture {
        match self.source_of(semantics, index) {
            Some(texture) => texture,
            None => Texture::absent(),
        }
    }

    /// The words of a texture's size: zeros where the role has no source.
    pub open spec fn texture_size(self, semantics: TextureSemantics, index: nat) -> Seq<u32> {
        match self.source_of(semantics, index) {
            Some(texture) => size_vector(texture.image.size),
            None => zero_vector(),
        }
    }

    /// The words of a built-in value.
    pub open spec fn variable(self, semantics: UniqueSemantics) -> Seq<u32> {
        match semantics {
            UniqueSemantics::MVP => self.mvp,
            UniqueSemantics::Output => size_vector(self.output),
            UniqueSemantics::FinalViewport => size_vector(self.final_viewport),
            UniqueSemantics::FrameCount => seq![self.frame_count],
            UniqueSemantics::FrameDirection => seq![signed_bits(self.frame_direction)],
            UniqueSemantics::FloatParameter => seq![0u32],
        }
    }

    /// The word of a user parameter: the user's value where there is one,
    /// else the initial value that the shader declares.
    pub open spec fn parameter(self, meta: ParameterMeta) -> Seq<u32> {
        if self.parameters.contains_key(meta.id@) {
            seq![self.parameters[meta.id@]]
        } else {
            seq![meta.initial]
        }
    }

    /// The words that a uniform member is written with.
    pub open spec fn words(self, binding: UniformBinding, parameters: Seq<ParameterMeta>) -> Seq<u32> {
        match binding {
            UniformBinding::Parameter(at) => if at < parameters.len() {
                self.parameter(parameters[at as int])
            } else {
                seq![0u32]
            },
            UniformBinding::SemanticVariable(semantics) => self.variable(semantics),
            UniformBinding::TextureSize(semantics, index) => self.texture_size(semantics, index as nat),
        }
    }
}

impl UniformBinding {
    /// The number of 32-bit words that the member takes.
    pub open spec fn words(self) -> nat {
        match self {
            UniformBinding::Parameter(_) => 1,
            UniformBinding::SemanticVariable(semantics) => semantics.words(),
            UniformBinding::TextureSize(_, _) => 4,
        }
    }
}

/// The uniform members that reflection declares, in the order in which a
/// draw writes them: built-in values, texture sizes, user parameters.
pub open spec fn bindings_of(reflection: ShaderReflection) -> Seq<BoundUniform> {
    let variables = reflection.meta.variable_meta@;
    let sizes = reflection.meta.texture_size_meta@;
    let parameters = reflection.meta.parameter_meta@;
    Seq::new(
        variables.len() + sizes.len() + parameters.len(),
        |i: int|
            if i < variables.len() {
                BoundUniform {
                    binding: UniformBinding::SemanticVariable(variables[i].semantics),
                    offset: variables[i].offset,
                    location: variables[i].location,
                }
            } else if i < variables.len() + sizes.len() {
                BoundUniform {
                    binding: UniformBinding::TextureSize(
                        sizes[i - variables.len()].semantics,
                        sizes[i - variables.len()].index,
                    ),
                    offset: sizes[i - variables.len()].offset,
                    location: sizes[i - variables.len()].location,
                }
            } else {
                BoundUniform {
                    binding: UniformBinding::Parameter((i - variables.len() - sizes.len()) as usize),
                    offset: parameters[i - variables.len() - sizes.len()].offset,
                    location: parameters[i - variables.len() - sizes.len()].location,
                }
            },
    )
}

/// One pass of a chain.
pub struct FilterPass {
    pub reflection: ShaderReflection,
    /// The compiled program.
    pub program: u32,
    /// Where the program has its uniform buffer block, in each stage.
    pub ubo_location: UniformLocation,
    /// The GPU-visible buffers that the uniform buffer block is uploaded
    /// through; none where the pass declares no such block.
    pub ubo_ring: Vec<u32>,
    pub uniform_storage: UniformStorage,
    /// The uniform members by what they are bound to and the block they
    /// live in.
    pub uniform_bindings: FxHashMap<(u8, usize, usize), BoundUniform>,
    pub config: ShaderPassConfig,
}

impl FilterPass {
    /// What holds of every pass: it holds the uniform members that
    /// reflection declares, each under its key and inside its block, and
    /// none of them twice; its storage has the size of the blocks; and a
    /// pass with a uniform buffer block has its ring.
    #[verifier::opaque]
    pub open spec fn wf(&self) -> bool {
        &&& bound_uniforms(self.uniform_bindings) == held_bindings(
            bindings_of(self.reflection),
            bindings_of(self.reflection).len(),
        )
        &&& distinct_members(self.reflection)
        &&& self.reflection.members_fit()
        &&& self.uniform_storage@.ubo.len() == self.reflection.block_size(MemberOffset::Ubo(0))
        &&& self.uniform_storage@.push.len() == self.reflection.block_size(MemberOffset::PushConstant(0))
        &&& self.reflection.ubo is Some ==> self.ubo_ring@.len() == RING
    }


    /// The frame counter that the pass sees for the chain's counter `count`:
    /// reduced by the pass's modulus where it has one, in 32 bits.
    pub open spec fn frame_count_for(&self, count: u64) -> u32 {
        if self.config.frame_count_mod > 0 {
            (count % (self.config.frame_count_mod as u64)) as u32
        } else {
            (count % 0x1_0000_0000) as u32
        }
    }

    /// The writes that a draw makes into the uniform storage: one for each
    /// declared member, in their order.
    pub open spec fn uniform_writes(&self, bindings: Bindings) -> Seq<UniformWrite> {
        Seq::new(
            bindings_of(self.reflection).len(),
            |i: int|
                UniformWrite {
                    offset: bindings_of(self.reflection)[i].offset,
                    words: bindings.words(
                        bindings_of(self.reflection)[i].binding,
                        self.reflection.meta.parameter_meta@,
                    ),
                },
        )
    }

    /// Whether both uniform blocks of the pass hold zeros only, as they do
    /// when the pass is built.
    pub open spec fn starts_zeroed(&self) -> bool {
        &&& self.uniform_storage@.ubo == Seq::new(self.reflection.block_size(MemberOffset::Ubo(0)), |i: int| 0u8)
        &&& self.uniform_storage@.push == Seq::new(
            self.reflection.block_size(MemberOffset::PushConstant(0)),
            |i: int| 0u8,
        )
    }

    /// Whether `other` is this pass with, at most, other contents of its
    /// uniform storage.
    pub open spec fn same_program(&self, other: &FilterPass) -> bool {
        &&& self.reflection == other.reflection
        &&& self.program == other.program
        &&& self.ubo_location == other.ubo_location
        &&& self.ubo_ring == other.ubo_ring
        &&& self.uniform_bindings == other.uniform_bindings
        &&& self.config == other.config
    }

    /// What the semantics resolve against in the draw with these arguments.
    pub open spec fn bindings(
        index: usize,
        common: &FilterCommon,
        frame_count: u32,
        frame_direction: i32,
        viewport: &Viewport,
        original: Texture,
        source: Texture,
        target: RenderTarget,
    ) -> Bindings {
        Bindings {
            index: index as nat,
            frame_count,
            frame_direction,
            mvp: match target.mvp {
                Some(matrix) => matrix@,
                None => default_matrix(target.framebuffer == viewport.output),
            },
            output: target.framebuffer.size,
            final_viewport: viewport.output.size,
            original,
            source,
            history: common.history_textures@,
            outputs: earlier(common.output_textures@, index as nat),
            feedback: common.feedback_textures@,
            luts: lut_textures(common.luts),
            parameters: parameter_values(common.config.parameters),
        }
    }

    /// The commands that follow the texture bindings of a draw: upload what
    /// the pass declares of uniform blocks, bind the target, set the
    /// rectangle, draw, fill the mip chain where the pass asks for one, and
    /// leave the default framebuffer bound. The pass that renders into the
    /// caller's viewport draws the final quad, and draws it into the
    /// caller's rectangle where the caller gave a matrix.
    pub open spec fn target_commands(&self, index: usize, ring_slot: usize, viewport: &Viewport, target: RenderTarget) -> Seq<
        Command,
    > {
        let is_final = target.framebuffer == viewport.output;
        let upload = match self.reflection.ubo {
            Some(ubo) => seq![
                Command::UploadUniforms { pass: index, buffer: self.ubo_ring@[ring_slot as int], binding: ubo.binding },
            ],
            None => Seq::<Command>::empty(),
        };
        let push = if self.reflection.push_constant is Some {
            seq![Command::PushConstants { pass: index }]
        } else {
            Seq::<Command>::empty()
        };
        let rectangle = if is_final && viewport.mvp is Some {
            Command::SetViewport { x: viewport.x, y: viewport.y, size: viewport.output.size }
        } else {
            Command::SetViewport { x: 0, y: 0, size: target.framebuffer.size }
        };
        let quad = if is_final { QuadType::Final } else { QuadType::Offscreen };
        let mipmaps = if self.config.mipmap {
            seq![Command::GenerateMipmaps { image: target.framebuffer.image }]
        } else {
            Seq::<Command>::empty()
        };
        upload + push + seq![
            Command::BindFramebuffer { handle: target.framebuffer.handle },
            rectangle,
            Command::DrawQuad { quad },
        ] + mipmaps + seq![Command::BindFramebuffer { handle: 0 }]
    }

    /// The position of the quad's draw among the commands of a draw of this
    /// pass: behind the program, the texture bindings, the uploads, the
    /// target and the rectangle.
    pub open spec fn draw_position(&self) -> int {
        1 + self.reflection.meta.texture_meta@.len() + (if self.reflection.ubo is Some {
            1int
        } else {
            0int
        }) + (if self.reflection.push_constant is Some {
            1int
        } else {
            0int
        }) + 2
    }

    /// The commands of a draw.
    pub open spec fn draw_commands(
        &self,
        index: usize,
        ring_slot: usize,
        viewport: &Viewport,
        target: RenderTarget,
        bindings: Bindings,
    ) -> Seq<Command> {
        seq![Command::UseProgram { pass: index }] + self.texture_commands(bindings) + self.target_commands(
            index,
            ring_slot,
            viewport,
            target,
        )
    }

    /// Builds a pass from what the compiler and the backend made of it. The
    /// uniform storage starts out zeroed.
    pub fn new(
        config: ShaderPassConfig,
        reflection: ShaderReflection,
        program: u32,
        ubo_location: UniformLocation,
        ubo_ring: Vec<u32>,
    ) -> (result: Result<FilterPass, FilterChainError>)
        ensures
            !reflection.members_fit() ==> result is Err && result->Err_0
                == FilterChainError::UniformOffsetOutOfRange,
            reflection.members_fit() && !distinct_members(reflection) ==> result is Err && result->Err_0
                == FilterChainError::ShaderReflectError,
            reflection.members_fit() && distinct_members(reflection) && reflection.ubo is Some && ubo_ring@.len()
                != RING ==> result is Err && result->Err_0 == FilterChainError::AllocationMismatch,
            reflection.members_fit() && distinct_members(reflection) && (reflection.ubo is Some ==> ubo_ring@.len()
                == RING) ==> result is Ok && ({
                let pass = result->Ok_0;
                &&& pass.wf()
                &&& pass.reflection == reflection
                &&& pass.config == config
                &&& pass.program == program
                &&& pass.ubo_location == ubo_location
                &&& pass.ubo_ring == ubo_ring
                &&& pass.starts_zeroed()
            }),
    {
        proof {
            reveal(FilterPass::wf);
        }
        if !reflection.check_members() {
            return Err(FilterChainError::UniformOffsetOutOfRange);
        }
        let uniform_bindings = match build_bindings(&reflection) {
            Some(held) => held,
            None => {
                return Err(FilterChainError::ShaderReflectError);
            },
        };
        if reflection.ubo.is_some() && ubo_ring.len() != RING {
            return Err(FilterChainError::AllocationMismatch);
        }
        let uniform_storage = UniformStorage::new(reflection.ubo_size(), reflection.push_size());
        Ok(
            FilterPass {
                reflection,
                program,
                ubo_location,
                ubo_ring,
                uniform_storage,
                uniform_bindings,
                config,
            },
        )
    }

    /// The declared format of the output, the chain's default standing in
    /// for `Unknown`.
    pub fn get_format(&self) -> (format: ImageFormat)
        ensures
            format == self.config.format.resolved(),
    {
        self.config.format.or_default()
    }

    /// Reduces the chain's frame counter to what this pass sees.
    pub fn frame_count(&self, count: u64) -> (reduced: u32)
        ensures
            reduced == self.frame_count_for(count),
    {
        if self.config.frame_count_mod > 0 {
            (count % (self.config.frame_count_mod as u64)) as u32
        } else {
            (count % 0x1_0000_0000) as u32
        }
    }

    /// Renders the pass: writes every uniform member that reflection
    /// declares into the uniform storage and returns the commands that bind
    /// every declared texture, upload the uniforms and draw into `target`.
    pub fn draw(
        &mut self,
        index: usize,
        common: &FilterCommon,
        frame_count: u32,
        frame_direction: i32,
        ring_slot: usize,
        viewport: &Viewport,
        original: &Texture,
        source: &Texture,
        target: RenderTarget,
    ) -> (commands: Vec<Command>)
        requires
            old(self).wf(),
            ring_slot < RING,
        ensures
            final(self).wf(),
            final(self).reflection == old(self).reflection,
            final(self).config == old(self).config,
            final(self).program == old(self).program,
            final(self).ubo_location == old(self).ubo_location,
            final(self).ubo_ring == old(self).ubo_ring,
            final(self).uniform_bindings == old(self).uniform_bindings,
            final(self).uniform_storage@ == old(self).uniform_storage@.apply(
                old(self).uniform_writes(
                    Self::bindings(index, common, frame_count, frame_direction, viewport, *original, *source, target),
                ),
            ),
            commands@ == old(self).draw_commands(
                index,
                ring_slot,
                viewport,
                target,
                Self::bindings(index, common, frame_count, frame_direction, viewport, *original, *source, target),
            ),
    {
        let ghost bindings = Self::bindings(
            index,
            common,
            frame_count,
            frame_direction,
            viewport,
            *original,
            *source,
            target,
        );
        let ghost writes = self.uniform_writes(bindings);
        let ghost before = self.uniform_storage@;
        proof {
            reveal(FilterPass::wf);
        }
        let mvp = match target.mvp {
            Some(matrix) => matrix,
            None => default_mvp(target.framebuffer == viewport.output),
        };
        let declared = collect_bindings(&self.reflection);
        let mut i: usize = 0;
        assert(writes.take(0) =~= Seq::<UniformWrite>::empty());
        while i < declared.len()
            invariant
                i <= declared@.len(),
                declared@ == bindings_of(self.reflection),
                self.wf(),
                self.reflection == old(self).reflection,
                self.config == old(self).config,
                self.program == old(self).program,
                self.ubo_location == old(self).ubo_location,
                self.ubo_ring == old(self).ubo_ring,
                self.uniform_bindings == old(self).uniform_bindings,
                writes == old(self).uniform_writes(bindings),
                writes.len() == declared@.len(),
                bindings == Self::bindings(
                    index,
                    common,
                    frame_count,
                    frame_direction,
                    viewport,
                    *original,
                    *source,
                    target,
                ),
                mvp@ == bindings.mvp,
                self.uniform_storage@ == before.apply(writes.take(i as int)),
            decreases declared@.len() - i,
        {
            proof {
                reveal(FilterPass::wf);
                lemma_held_member(self.reflection, declared@.len(), i as int);
                lemma_member_fits(self.reflection, i as int);
            }
            let member = match bindings_get(&self.uniform_bindings, key_of(&declared[i])) {
                Some(member) => member,
                None => {
                    assert(false);
                    declared[i]
                },
            };
            proof {
                assert(writes.take(i + 1).drop_last() =~= writes.take(i as int));
                assert(writes.take(i + 1).last() == writes[i as int]);
            }
            let written = match member.binding {
                UniformBinding::SemanticVariable(UniqueSemantics::MVP) => self.uniform_storage.bind_mat4(
                    member.offset,
                    &mvp,
                ),
                UniformBinding::SemanticVariable(UniqueSemantics::Output) => {
                    let words = size_words(target.framebuffer.size);
                    self.uniform_storage.bind_vec4(member.offset, &words)
                },
                UniformBinding::SemanticVariable(UniqueSemantics::FinalViewport) => {
                    let words = size_words(viewport.output.size);
                    self.uniform_storage.bind_vec4(member.offset, &words)
                },
                UniformBinding::SemanticVariable(UniqueSemantics::FrameCount) => self.uniform_storage.bind_scalar(
                    member.offset,
                    frame_count,
                ),
                UniformBinding::SemanticVariable(UniqueSemantics::FrameDirection) => self.uniform_storage.bind_scalar(
                    member.offset,
                    bits_of(frame_direction),
                ),
                UniformBinding::SemanticVariable(UniqueSemantics::FloatParameter) => self.uniform_storage.bind_scalar(
                    member.offset,
                    0,
                ),
                UniformBinding::TextureSize(semantics, at) => {
                    let words = match resolve(common, index, original, source, semantics, at, Ghost(bindings)) {
                        Some(texture) => size_words(texture.image.size),
                        None => {
                            let zeros = [0u32, 0u32, 0u32, 0u32];
                            assert(zeros@ =~= zero_vector());
                            zeros
                        },
                    };
                    self.uniform_storage.bind_vec4(member.offset, &words)
                },
                UniformBinding::Parameter(at) => {
                    let meta = &self.reflection.meta.parameter_meta[at];
                    let value = match parameters_get(&common.config.parameters, meta.id.as_str()) {
                        Some(value) => value,
                        None => meta.initial,
                    };
                    self.uniform_storage.bind_scalar(member.offset, value)
                },
            };
            assert(written is Ok);
            i = i + 1;
        }
        assert(writes.take(i as int) =~= writes);

        let mut commands: Vec<Command> = Vec::new();
        commands.push(Command::UseProgram { pass: index });
        let ghost binds = self.texture_commands(bindings);
        let mut j: usize = 0;
        while j < self.reflection.meta.texture_meta.len()
            invariant
                j <= self.reflection.meta.texture_meta@.len(),
                binds == self.texture_commands(bindings),
                bindings == Self::bindings(
                    index,
                    common,
                    frame_count,
                    frame_direction,
                    viewport,
                    *original,
                    *source,
                    target,
                ),
                commands@ == seq![Command::UseProgram { pass: index }] + binds.take(j as int),
            decreases self.reflection.meta.texture_meta@.len() - j,
        {
            let meta = self.reflection.meta.texture_meta[j];
            let texture = match resolve(common, index, original, source, meta.semantics, meta.index, Ghost(bindings)) {
                Some(texture) => texture,
                None => Texture::none(),
            };
            commands.push(Command::BindTexture { binding: meta.binding, texture });
            assert(commands@ =~= seq![Command::UseProgram { pass: index }] + binds.take(j + 1));
            j = j + 1;
        }
        assert(binds.take(j as int) =~= binds);

        let is_final = target.framebuffer == viewport.output;
        match self.reflection.ubo {
            Some(ubo) => {
                commands.push(
                    Command::UploadUniforms { pass: index, buffer: self.ubo_ring[ring_slot], binding: ubo.binding },
                );
            },
            None => {},
        }
        if self.reflection.push_constant.is_some() {
            commands.push(Command::PushConstants { pass: index });
        }
        commands.push(Command::BindFramebuffer { handle: target.framebuffer.handle });
        if is_final && viewport.mvp.is_some() {
            commands.push(Command::SetViewport { x: viewport.x, y: viewport.y, size: viewport.output.size });
        } else {
            commands.push(Command::SetViewport { x: 0, y: 0, size: target.framebuffer.size });
        }
        commands.push(Command::DrawQuad { quad: if is_final { QuadType::Final } else { QuadType::Offscreen } });
        if self.config.mipmap {
            commands.push(Command::GenerateMipmaps { image: target.framebuffer.image });
        }
        commands.push(Command::BindFramebuffer { handle: 0 });
        assert(commands@ =~= old(self).draw_commands(index, ring_slot, viewport, target, bindings));
        commands
    }

    /// The commands that bind the textures of the pass: one for each
    /// declared binding point, in their order.
    pub open spec fn texture_commands(&self, bindings: Bindings) -> Seq<Command> {
        Seq::new(
            self.reflection.meta.texture_meta@.len(),
            |i: int|
                Command::BindTexture {
                    binding: self.reflection.meta.texture_meta@[i].binding,
                    texture: bindings.texture(
                        self.reflection.meta.texture_meta@[i].semantics,
                        self.reflection.meta.texture_meta@[i].index as nat,
                    ),
                },
        )
    }
}

/// The key that a uniform member is held under: what it is bound to, and
/// the block it lives in. Two members have one key only if they are bound
/// to the same value in the same block.
pub open spec fn binding_key(member: BoundUniform) -> (u8, usize, usize) {
    let block: u8 = if member.offset.is_ubo() { 0 } else { 1 };
    match member.binding {
        UniformBinding::Parameter(at) => ((0 + block) as u8, at, 0usize),
        UniformBinding::SemanticVariable(semantics) => ((2 + block) as u8, variable_code(semantics), 0usize),
        UniformBinding::TextureSize(semantics, index) => ((4 + block) as u8, texture_code(semantics), index),
    }
}

/// The number that stands for a built-in value in a key.
pub open spec fn variable_code(semantics: UniqueSemantics) -> usize {
    match semantics {
        UniqueSemantics::MVP => 0,
        UniqueSemantics::Output => 1,
        UniqueSemantics::FinalViewport => 2,
        UniqueSemantics::FrameCount => 3,
        UniqueSemantics::FrameDirection => 4,
        UniqueSemantics::FloatParameter => 5,
    }
}

/// The number that stands for the role of a texture in a key.
pub open spec fn texture_code(semantics: TextureSemantics) -> usize {
    match semantics {
        TextureSemantics::Original => 0,
        TextureSemantics::Source => 1,
        TextureSemantics::OriginalHistory => 2,
        TextureSemantics::PassOutput => 3,
        TextureSemantics::PassFeedback => 4,
        TextureSemantics::User => 5,
    }
}

/// What a map holds after the first `upto` of `declared` were put into it,
/// each under its key, one after the other.
pub open spec fn held_bindings(declared: Seq<BoundUniform>, upto: nat) -> Map<(u8, usize, usize), BoundUniform>
    decreases upto,
{
    if upto == 0 {
        Map::empty()
    } else {
        held_bindings(declared, (upto - 1) as nat).insert(binding_key(declared[upto - 1]), declared[upto - 1])
    }
}

/// The key of a uniform member.
pub fn key_of(member: &BoundUniform) -> (key: (u8, usize, usize))
    ensures
        key == binding_key(*member),
{
    let block: u8 = match member.offset {
        MemberOffset::Ubo(_) => 0,
        MemberOffset::PushConstant(_) => 1,
    };
    match member.binding {
        UniformBinding::Parameter(at) => (block, at, 0),
        UniformBinding::SemanticVariable(semantics) => {
            let code: usize = match semantics {
                UniqueSemantics::MVP => 0,
                UniqueSemantics::Output => 1,
                UniqueSemantics::FinalViewport => 2,
                UniqueSemantics::FrameCount => 3,
                UniqueSemantics::FrameDirection => 4,
                UniqueSemantics::FloatParameter => 5,
            };
            (2 + block, code, 0)
        },
        UniformBinding::TextureSize(semantics, index) => {
            let code: usize = match semantics {
                TextureSemantics::Original => 0,
                TextureSemantics::Source => 1,
                TextureSemantics::OriginalHistory => 2,
                TextureSemantics::PassOutput => 3,
                TextureSemantics::PassFeedback => 4,
                TextureSemantics::User => 5,
            };
            (4 + block, code, index)
        },
    }
}

/// Whether no two uniform members that reflection declares are bound to the
/// same value in the same block.
pub open spec fn distinct_members(reflection: ShaderReflection) -> bool {
    forall|i: int, j: int|
        0 <= i < j < bindings_of(reflection).len() ==> binding_key(#[trigger] bindings_of(reflection)[i])
            != binding_key(#[trigger] bindings_of(reflection)[j])
}

/// Puts the uniform members that reflection declares into a map, each under
/// its key. There is no such map where two members have one key.
pub(crate) fn build_bindings(reflection: &ShaderReflection) -> (held: Option<
    FxHashMap<(u8, usize, usize), BoundUniform>,
>)
    requires
        reflection.members_fit(),
    ensures
        held is Some <==> distinct_members(*reflection),
        held is Some ==> bound_uniforms(held->0) == held_bindings(
            bindings_of(*reflection),
            bindings_of(*reflection).len(),
        ),
{
    let declared = collect_bindings(reflection);
    let mut held = bindings_new();
    let mut i: usize = 0;
    while i < declared.len()
        invariant
            i <= declared@.len(),
            declared@ == bindings_of(*reflection),
            bound_uniforms(held) == held_bindings(declared@, i as nat),
            forall|a: int, b: int|
                0 <= a < b < i ==> binding_key(#[trigger] declared@[a]) != binding_key(#[trigger] declared@[b]),
        decreases declared@.len() - i,
    {
        let key = key_of(&declared[i]);
        proof {
            lemma_held_keys(declared@, i as nat, key);
        }
        if bindings_get(&held, key).is_some() {
            return None;
        }
        bindings_insert(&mut held, key, declared[i]);
        i = i + 1;
    }
    Some(held)
}

/// A map holds a key after members were put into it if and only if one of
/// them has the key.
pub proof fn lemma_held_keys(declared: Seq<BoundUniform>, upto: nat, key: (u8, usize, usize))
    requires
        upto <= declared.len(),
    ensures
        held_bindings(declared, upto).contains_key(key) <==> exists|a: int|
            0 <= a < upto && binding_key(#[trigger] declared[a]) == key,
    decreases upto,
{
    if upto > 0 {
        lemma_held_keys(declared, (upto - 1) as nat, key);
        if binding_key(declared[upto - 1]) == key {
            assert(0 <= upto - 1 < upto && binding_key(declared[upto - 1]) == key);
        }
    }
}

/// A pass holds every declared member under the member's key.
pub proof fn lemma_held_member(reflection: ShaderReflection, upto: nat, i: int)
    requires
        distinct_members(reflection),
        0 <= i < upto <= bindings_of(reflection).len(),
    ensures
        held_bindings(bindings_of(reflection), upto).contains_key(binding_key(bindings_of(reflection)[i])),
        held_bindings(bindings_of(reflection), upto)[binding_key(bindings_of(reflection)[i])] == bindings_of(
            reflection,
        )[i],
    decreases upto,
{
    let declared = bindings_of(reflection);
    let last = upto - 1;
    if i < last {
        lemma_held_member(reflection, last as nat, i);
        assert(binding_key(declared[i]) != binding_key(declared[last]));
    }
}

/// Every declared member lies inside its block and is written with as many
/// words as its kind takes.
pub proof fn lemma_member_fits(reflection: ShaderReflection, i: int)
    requires
        reflection.members_fit(),
        0 <= i < bindings_of(reflection).len(),
    ensures
        reflection.holds(bindings_of(reflection)[i].offset, bindings_of(reflection)[i].binding.words()),
        bindings_of(reflection)[i].binding is Parameter ==> bindings_of(reflection)[i].binding->Parameter_0
            < reflection.meta.parameter_meta@.len(),
{
    let variables = reflection.meta.variable_meta@;
    let sizes = reflection.meta.texture_size_meta@;
    let parameters = reflection.meta.parameter_meta@;
    if i < variables.len() {
        assert(reflection.holds(variables[i].offset, variables[i].semantics.words()));
    } else if i < variables.len() + sizes.len() {
        assert(reflection.holds(sizes[i - variables.len()].offset, 4));
    } else {
        assert(reflection.holds(parameters[i - variables.len() - sizes.len()].offset, 1));
    }
}

/// The bits of a signed integer in two's complement.
fn bits_of(value: i32) -> (bits: u32)
    ensures
        bits == signed_bits(value),
{
    if value >= 0 {
        value as u32
    } else {
        (value as i64 + 0x1_0000_0000) as u32
    }
}

/// Looks up the texture that has a role in a draw.
fn resolve(
    common: &FilterCommon,
    pass: usize,
    original: &Texture,
    source: &Texture,
    semantics: TextureSemantics,
    index: usize,
    Ghost(bindings): Ghost<Bindings>,
) -> (texture: Option<Texture>)
    requires
        bindings.index == pass,
        bindings.original == *original,
        bindings.source == *source,
        bindings.history == common.history_textures@,
        bindings.outputs == earlier(common.output_textures@, pass as nat),
        bindings.feedback == common.feedback_textures@,
        bindings.luts == lut_textures(common.luts),
    ensures
        texture == bindings.source_of(semantics, index as nat),
{
    match semantics {
        TextureSemantics::Original => Some(*original),
        TextureSemantics::Source => Some(*source),
        TextureSemantics::OriginalHistory => if index == 0 {
            Some(*original)
        } else if index <= common.history_textures.len() {
            Some(common.history_textures[index - 1])
        } else {
            None
        },
        TextureSemantics::PassOutput => if index < pass && index < common.output_textures.len() {
            Some(common.output_textures[index])
        } else {
            None
        },
        TextureSemantics::PassFeedback => if index < common.feedback_textures.len() {
            Some(common.feedback_textures[index])
        } else {
            None
        },
        TextureSemantics::User => luts_get(&common.luts, index),
    }
}

/// Lists the uniform members that reflection declares.
pub(crate) fn collect_bindings(reflection: &ShaderReflection) -> (bound: Vec<BoundUniform>)
    requires
        reflection.members_fit(),
    ensures
        bound@ == bindings_of(*reflection),
{
    let ghost all = bindings_of(*reflection);
    let mut bound: Vec<BoundUniform> = Vec::new();
    let mut i: usize = 0;
    while i < reflection.meta.variable_meta.len()
        invariant
            i <= reflection.meta.variable_meta@.len(),
            all == bindings_of(*reflection),
            bound@ == all.take(i as int),
        decreases reflection.meta.variable_meta@.len() - i,
    {
        let meta = reflection.meta.variable_meta[i];
        bound.push(
            BoundUniform {
                binding: UniformBinding::SemanticVariable(meta.semantics),
                offset: meta.offset,
                location: meta.location,
            },
        );
        assert(bound@ =~= all.take(i + 1));
        i = i + 1;
    }
    let mut j: usize = 0;
    while j < reflection.meta.texture_size_meta.len()
        invariant
            i == reflection.meta.variable_meta@.len(),
            j <= reflection.meta.texture_size_meta@.len(),
            all == bindings_of(*reflection),
            bound@ == all.take(i + j),
        decreases reflection.meta.texture_size_meta@.len() - j,
    {
        let meta = reflection.meta.texture_size_meta[j];
        bound.push(
            BoundUniform {
                binding: UniformBinding::TextureSize(meta.semantics, meta.index),
                offset: meta.offset,
                location: meta.location,
            },
        );
        assert(bound@ =~= all.take(i + j + 1));
        j = j + 1;
    }
    let mut k: usize = 0;
    while k < reflection.meta.parameter_meta.len()
        invariant
            i == reflection.meta.variable_meta@.len(),
            j == reflection.meta.texture_size_meta@.len(),
            k <= reflection.meta.parameter_meta@.len(),
            all == bindings_of(*reflection),
            bound@ == all.take(i + j + k),
        decreases reflection.meta.parameter_meta@.len() - k,
    {
        let meta = &reflection.meta.parameter_meta[k];
        bound.push(
            BoundUniform { binding: UniformBinding::Parameter(k), offset: meta.offset, location: meta.location },
        );
        assert(bound@ =~= all.take(i + j + k + 1));
        k = k + 1;
    }
    assert(bound@ =~= all);
    bound
}

} // verus!
