//! The chain: its passes, its pools of render targets, and the frame that
//! renders them.

use vstd::prelude::*;
use std::collections::VecDeque;
use rustc_hash::FxHashMap;
use crate::common::{FilterMode, ImageFormat, Size, WrapMode};
use crate::error::FilterChainError;
use crate::filter_pass::{distinct_members, earlier, FilterCommon, FilterMutable, FilterPass, RenderTarget, ShaderPassConfig, Viewport};
use crate::stage::Stage;
use crate::framebuffer::{levels_limit, Allocation, Command, Gl3Framebuffer, GlImage, Texture, TextureRequest};
use crate::maps::{lut_textures, luts_insert, luts_new, parameter_values, parameters_insert, parameters_new};
use crate::samplers::SamplerSet;
use crate::scaling::{bit_length, calc_miplevel, resolve_scale};
use crate::semantics::{ShaderReflection, TextureMeta, TextureSemantics, TextureSizeMeta, UniformLocation};
use crate::uniforms::{ring_slot, RING};

verus! {

/// What a preset declares of a lookup texture.
#[derive(Clone, Copy, Debug, PartialEq, Eq, Structural)]
pub struct TextureConfig {
    pub wrap_mode: WrapMode,
    pub filter_mode: FilterMode,
    pub mipmap: bool,
}

/// A parameter value that a preset sets.
#[derive(Clone, Debug)]
pub struct ParameterConfig {
    pub name: String,
    /// The value as single-precision bits.
    pub value: u32,
}

/// A parsed preset.
#[derive(Clone, Debug)]
pub struct ShaderPreset {
    /// The number of passes that the preset enables.
    pub shader_count: i32,
    pub shaders: Vec<ShaderPassConfig>,
    pub textures: Vec<TextureConfig>,
    pub parameters: Vec<ParameterConfig>,
}

/// What the compiler and the backend made of one pass.
pub struct CompiledPass {
    pub reflection: ShaderReflection,
    /// The linked program.
    pub program: u32,
    /// Where the program has its uniform buffer block, in each stage.
    pub ubo_location: UniformLocation,
    /// The ring of buffers made for the uniform buffer block; empty where
    /// the pass declares none.
    pub ubo_ring: Vec<u32>,
}

/// A lookup texture that the backend has decoded and uploaded.
#[derive(Clone, Copy, Debug, PartialEq, Eq, Structural)]
pub struct LoadedLut {
    pub handle: u32,
    pub size: Size,
}

/// What a caller may ask of a single frame.
#[derive(Clone, Copy, Debug, PartialEq, Eq, Structural)]
pub struct FrameOptions {
    /// Clear every history image before the frame is drawn.
    pub clear_history: bool,
    /// The direction of play: 1 forwards, -1 backwards.
    pub frame_direction: i32,
}

impl FrameOptions {
    /// Whether a frame with these options clears the history first; one
    /// without options does not.
    pub open spec fn clears(options: Option<&FrameOptions>) -> bool {
        match options {
            Some(options) => options.clear_history,
            None => false,
        }
    }

    /// The direction of a frame with these options; forwards without
    /// options.
    pub open spec fn direction(options: Option<&FrameOptions>) -> i32 {
        match options {
            Some(options) => options.frame_direction,
            None => 1,
        }
    }
}

/// A chain of passes with the render targets that it owns.
pub struct FilterChain {
    pub passes: Vec<FilterPass>,
    pub common: FilterCommon,
    /// The target of each pass but the last.
    pub output_framebuffers: Vec<Gl3Framebuffer>,
    /// The targets of the previous frame.
    pub feedback_framebuffers: Vec<Gl3Framebuffer>,
    /// The inputs of earlier frames, most recent first.
    pub history_framebuffers: VecDeque<Gl3Framebuffer>,
}

/// How many history images a reference to a texture asks for: one more
/// than the index, for the history of the frame's input; none for another
/// role.
pub open spec fn history_need(semantics: TextureSemantics, index: usize) -> nat {
    if semantics == TextureSemantics::OriginalHistory {
        if index == usize::MAX {
            usize::MAX as nat
        } else {
            (index + 1) as nat
        }
    } else {
        0
    }
}

/// The larger of two numbers.
pub open spec fn larger(a: nat, b: nat) -> nat {
    if a >= b {
        a
    } else {
        b
    }
}

/// The most history images that any of the first `upto` textures asks for.
pub open spec fn texture_reach(metas: Seq<TextureMeta>, upto: nat) -> nat
    decreases upto,
{
    if upto == 0 {
        0
    } else {
        larger(
            texture_reach(metas, (upto - 1) as nat),
            history_need(metas[upto - 1].semantics, metas[upto - 1].index),
        )
    }
}

/// The most history images that any of the first `upto` texture sizes asks
/// for.
pub open spec fn size_reach(metas: Seq<TextureSizeMeta>, upto: nat) -> nat
    decreases upto,
{
    if upto == 0 {
        0
    } else {
        larger(size_reach(metas, (upto - 1) as nat), history_need(metas[upto - 1].semantics, metas[upto - 1].index))
    }
}

/// The most history images that a pass asks for, as a texture or as a size.
pub open spec fn pass_reach(pass: FilterPass) -> nat {
    larger(
        texture_reach(pass.reflection.meta.texture_meta@, pass.reflection.meta.texture_meta@.len()),
        size_reach(pass.reflection.meta.texture_size_meta@, pass.reflection.meta.texture_size_meta@.len()),
    )
}

/// The most history images that any of the first `upto` passes asks for.
pub open spec fn required_history(passes: Seq<FilterPass>, upto: nat) -> nat
    decreases upto,
{
    if upto == 0 {
        0
    } else {
        larger(required_history(passes, (upto - 1) as nat), pass_reach(passes[upto - 1]))
    }
}

/// The number of history images that a chain of these passes keeps: as many
/// as the passes ask for, and none where they ask for one at most.
pub open spec fn history_length(passes: Seq<FilterPass>) -> nat {
    if required_history(passes, passes.len()) <= 1 {
        0
    } else {
        required_history(passes, passes.len())
    }
}

/// The placeholder that every image of a chain starts as: one texel, no
/// texture, and the number of mip levels that it may ever have.
pub open spec fn placeholder(max_levels: u32) -> Gl3Framebuffer {
    Gl3Framebuffer {
        image: 0,
        handle: 0,
        size: Size { width: 1, height: 1 },
        format: ImageFormat::Unknown,
        requested: ImageFormat::Unknown,
        max_levels,
        mip_levels: 1,
        is_raw: false,
    }
}

/// The placeholders of the output images, or of the feedback images, of
/// these passes: the image of a pass whose output gets a mip chain may have
/// a full chain, the image of another pass one level.
pub open spec fn placeholders(passes: Seq<FilterPass>) -> Seq<Gl3Framebuffer> {
    Seq::new(passes.len(), |i: int| placeholder(levels_limit(passes[i].config.mipmap)))
}

/// The view of a history image before any frame was kept in it.
pub open spec fn empty_history(filter: FilterMode, wrap_mode: WrapMode) -> Texture {
    Texture {
        image: GlImage { handle: 0, format: ImageFormat::Unknown, size: Size { width: 0, height: 0 } },
        filter,
        mip_filter: filter,
        wrap_mode,
    }
}

/// The lookup texture made of a preset's entry and what the backend loaded
/// for it.
pub open spec fn lut_texture(config: TextureConfig, image: LoadedLut) -> Texture {
    Texture {
        image: GlImage { handle: image.handle, format: ImageFormat::R8G8B8A8Unorm, size: image.size },
        filter: config.filter_mode,
        mip_filter: config.filter_mode,
        wrap_mode: config.wrap_mode,
    }
}

/// The values that the first `upto` entries of a preset give to parameters;
/// of two entries with one name the later stands.
pub open spec fn preset_parameters(parameters: Seq<ParameterConfig>, upto: nat) -> Map<Seq<char>, u32>
    decreases upto,
{
    if upto == 0 {
        Map::empty()
    } else {
        preset_parameters(parameters, (upto - 1) as nat).insert(
            parameters[upto - 1].name@,
            parameters[upto - 1].value,
        )
    }
}

/// Why a pass cannot be built of what was compiled for it, if it cannot: a
/// uniform member outside its block, a member declared twice in one block,
/// or a uniform buffer block without its ring.
pub open spec fn pass_error(compiled: CompiledPass) -> Option<FilterChainError> {
    if !compiled.reflection.members_fit() {
        Some(FilterChainError::UniformOffsetOutOfRange)
    } else if !distinct_members(compiled.reflection) {
        Some(FilterChainError::ShaderReflectError)
    } else if compiled.reflection.ubo is Some && compiled.ubo_ring@.len() != RING {
        Some(FilterChainError::AllocationMismatch)
    } else {
        None
    }
}

/// How a lookup texture is uploaded.
#[derive(Clone, Copy, Debug, PartialEq, Eq, Structural)]
pub struct LutUpload {
    /// The number of mip levels to allocate.
    pub levels: u32,
    /// Whether to fill the mip chain once the first level is uploaded.
    pub generate_mipmaps: bool,
}

/// How a lookup texture of `size` is uploaded: with a full mip chain where
/// the preset asks for mipmaps, with one level where not; a chain of more
/// than one level is filled after the upload.
pub fn lut_upload(config: &TextureConfig, size: Size) -> (upload: LutUpload)
    ensures
        upload.levels == (if config.mipmap { bit_length(size.longest()) } else { 1 }),
        upload.generate_mipmaps == (upload.levels > 1),
{
    let levels = if config.mipmap {
        calc_miplevel(size)
    } else {
        1
    };
    LutUpload { levels, generate_mipmaps: levels > 1 }
}

/// How many history images a reference to a texture asks for.
fn need_of(semantics: TextureSemantics, index: usize) -> (need: usize)
    ensures
        need == history_need(semantics, index),
{
    if semantics == TextureSemantics::OriginalHistory {
        if index == usize::MAX {
            usize::MAX
        } else {
            index + 1
        }
    } else {
        0
    }
}

/// Resizes one image of a chain with the answer at `cursor`, if the image
/// asks for one and the backend has answered that many requests. Says
/// whether the image was given a texture, and where the next answer is.
fn resize_one(
    image: &mut Gl3Framebuffer,
    size: Size,
    format: ImageFormat,
    allocations: &[Allocation],
    cursor: usize,
) -> (step: (bool, usize))
    requires
        old(image).wf(),
        cursor <= allocations@.len(),
    ensures
        final(image).wf(),
        final(image).is_raw == old(image).is_raw,
        step.0 == (old(image).needs_init(size, format) && cursor < allocations@.len()),
        step.1 == (if step.0 {
            cursor + 1
        } else {
            cursor as int
        }),
        *final(image) == old(image).resized(
            size,
            format,
            if step.0 {
                Some(allocations@[cursor as int])
            } else {
                None
            },
        ),
{
    match image.init_request(size, format) {
        Some(_) => if cursor < allocations.len() {
            let _ = image.init(size, format, Some(allocations[cursor]));
            (true, cursor + 1)
        } else {
            (false, cursor)
        },
        None => (false, cursor),
    }
}

impl FilterChain {
    /// The number of passes that a frame runs.
    pub open spec fn enabled(&self) -> nat {
        self.common.config.passes_enabled as nat
    }

    /// What holds of every chain: each pass has its output and feedback
    /// image and its views of them, no more passes are enabled than there
    /// are, each history image has its view, and each part is well formed.
    pub open spec fn wf(&self) -> bool {
        &&& self.output_framebuffers@.len() == self.passes@.len()
        &&& self.feedback_framebuffers@.len() == self.passes@.len()
        &&& self.common.output_textures@.len() == self.passes@.len()
        &&& self.common.feedback_textures@.len() == self.passes@.len()
        &&& self.common.history_textures@.len() == self.history_framebuffers@.len()
        &&& self.enabled() <= self.passes@.len()
        &&& self.common.samplers.wf()
        &&& forall|i: int| 0 <= i < self.passes@.len() ==> (#[trigger] self.passes@[i]).wf()
        &&& forall|i: int|
            0 <= i < self.passes@.len() ==> (#[trigger] self.output_framebuffers@[i]).wf()
                && !self.output_framebuffers@[i].is_raw
        &&& forall|i: int|
            0 <= i < self.passes@.len() ==> (#[trigger] self.feedback_framebuffers@[i]).wf()
                && !self.feedback_framebuffers@[i].is_raw
        &&& forall|i: int|
            0 <= i < self.history_framebuffers@.len() ==> (#[trigger] self.history_framebuffers@[i]).wf()
                && !self.history_framebuffers@[i].is_raw
    }

    /// Makes the history images that the passes ask for, with their views:
    /// placeholders that are sampled with `filter` and `wrap_mode`.
    pub fn init_history(filters: &Vec<FilterPass>, filter: FilterMode, wrap_mode: WrapMode) -> (history: (
        VecDeque<Gl3Framebuffer>,
        Vec<Texture>,
    ))
        ensures
            history.0@ == Seq::new(history_length(filters@), |i: int| placeholder(1)),
            history.1@ == Seq::new(history_length(filters@), |i: int| empty_history(filter, wrap_mode)),
    {
        let mut required: usize = 0;
        let mut p: usize = 0;
        while p < filters.len()
            invariant
                p <= filters@.len(),
                required == required_history(filters@, p as nat),
            decreases filters@.len() - p,
        {
            let meta = &filters[p].reflection.meta;
            let mut reach: usize = 0;
            let mut t: usize = 0;
            while t < meta.texture_meta.len()
                invariant
                    t <= meta.texture_meta@.len(),
                    reach == texture_reach(meta.texture_meta@, t as nat),
                decreases meta.texture_meta@.len() - t,
            {
                let need = need_of(meta.texture_meta[t].semantics, meta.texture_meta[t].index);
                if need > reach {
                    reach = need;
                }
                t = t + 1;
            }
            let mut size_reach_so_far: usize = 0;
            let mut s: usize = 0;
            while s < meta.texture_size_meta.len()
                invariant
                    s <= meta.texture_size_meta@.len(),
                    size_reach_so_far == size_reach(meta.texture_size_meta@, s as nat),
                decreases meta.texture_size_meta@.len() - s,
            {
                let need = need_of(meta.texture_size_meta[s].semantics, meta.texture_size_meta[s].index);
                if need > size_reach_so_far {
                    size_reach_so_far = need;
                }
                s = s + 1;
            }
            if size_reach_so_far > reach {
                reach = size_reach_so_far;
            }
            assert(reach == pass_reach(filters@[p as int]));
            if reach > required {
                required = reach;
            }
            p = p + 1;
        }
        let mut framebuffers: VecDeque<Gl3Framebuffer> = VecDeque::new();
        let mut textures: Vec<Texture> = Vec::new();
        if required <= 1 {
            assert(framebuffers@ =~= Seq::new(history_length(filters@), |i: int| placeholder(1)));
            assert(textures@ =~= Seq::new(history_length(filters@), |i: int| empty_history(filter, wrap_mode)));
            return (framebuffers, textures);
        }
        let mut made: usize = 0;
        while made < required
            invariant
                made <= required,
                framebuffers@ == Seq::new(made as nat, |i: int| placeholder(1)),
                textures@ == Seq::new(made as nat, |i: int| empty_history(filter, wrap_mode)),
            decreases required - made,
        {
            framebuffers.push_back(Gl3Framebuffer::new(1));
            textures.push(
                Texture {
                    image: GlImage { handle: 0, format: ImageFormat::Unknown, size: Size { width: 0, height: 0 } },
                    filter,
                    mip_filter: filter,
                    wrap_mode,
                },
            );
            made = made + 1;
            assert(framebuffers@ =~= Seq::new(made as nat, |i: int| placeholder(1)));
            assert(textures@ =~= Seq::new(made as nat, |i: int| empty_history(filter, wrap_mode)));
        }
        (framebuffers, textures)
    }

    /// Builds the table of lookup textures from the preset's entries and
    /// what the backend loaded for each, in the preset's order. Each texture
    /// is linear RGBA8 and is sampled as its entry says.
    pub fn load_luts(textures: &Vec<TextureConfig>, images: &Vec<LoadedLut>) -> (result: Result<
        FxHashMap<usize, Texture>,
        FilterChainError,
    >)
        ensures
            textures@.len() != images@.len() ==> result is Err && result->Err_0 == FilterChainError::LutLoadError,
            textures@.len() == images@.len() ==> result is Ok && lut_textures(result->Ok_0) == Map::new(
                |i: usize| i < textures@.len(),
                |i: usize| lut_texture(textures@[i as int], images@[i as int]),
            ),
    {
        if textures.len() != images.len() {
            return Err(FilterChainError::LutLoadError);
        }
        let mut luts = luts_new();
        let mut index: usize = 0;
        while index < textures.len()
            invariant
                index <= textures@.len(),
                textures@.len() == images@.len(),
                lut_textures(luts) == Map::new(
                    |i: usize| i < index,
                    |i: usize| lut_texture(textures@[i as int], images@[i as int]),
                ),
            decreases textures@.len() - index,
        {
            let config = textures[index];
            let image = images[index];
            luts_insert(
                &mut luts,
                index,
                Texture {
                    image: GlImage { handle: image.handle, format: ImageFormat::R8G8B8A8Unorm, size: image.size },
                    filter: config.filter_mode,
                    mip_filter: config.filter_mode,
                    wrap_mode: config.wrap_mode,
                },
            );
            index = index + 1;
            assert(lut_textures(luts) =~= Map::new(
                |i: usize| i < index,
                |i: usize| lut_texture(textures@[i as int], images@[i as int]),
            ));
        }
        Ok(luts)
    }

    /// Builds the passes of a chain, one from each configuration and what
    /// was compiled for it. The first pass that cannot be built decides the
    /// error.
    pub fn init_passes(configs: &Vec<ShaderPassConfig>, compiled: Vec<CompiledPass>) -> (result: Result<
        Vec<FilterPass>,
        FilterChainError,
    >)
        ensures
            configs@.len() != compiled@.len() ==> result is Err && result->Err_0
                == FilterChainError::AllocationMismatch,
            configs@.len() == compiled@.len() ==> match result {
                Ok(passes) => {
                    &&& passes@.len() == configs@.len()
                    &&& forall|i: int| 0 <= i < compiled@.len() ==> pass_error(#[trigger] compiled@[i]) is None
                    &&& forall|i: int|
                        0 <= i < passes@.len() ==> {
                            &&& (#[trigger] passes@[i]).wf()
                            &&& passes@[i].config == configs@[i]
                            &&& passes@[i].reflection == compiled@[i].reflection
                            &&& passes@[i].program == compiled@[i].program
                            &&& passes@[i].ubo_location == compiled@[i].ubo_location
                            &&& passes@[i].ubo_ring == compiled@[i].ubo_ring
                            &&& passes@[i].starts_zeroed()
                        }
                },
                Err(error) => exists|i: int|
                    0 <= i < compiled@.len() && pass_error(#[trigger] compiled@[i]) == Some(error) && forall|j: int|
                        0 <= j < i ==> pass_error(#[trigger] compiled@[j]) is None,
            },
    {
        if configs.len() != compiled.len() {
            return Err(FilterChainError::AllocationMismatch);
        }
        let ghost all = compiled@;
        let mut rest = compiled;
        let mut filters: Vec<FilterPass> = Vec::new();
        let mut index: usize = 0;
        while index < configs.len()
            invariant
                index <= configs@.len(),
                configs@.len() == all.len(),
                all == compiled@,
                rest@ == all.skip(index as int),
                filters@.len() == index,
                forall|i: int| 0 <= i < index ==> pass_error(#[trigger] all[i]) is None,
                forall|i: int|
                    0 <= i < index ==> {
                        &&& (#[trigger] filters@[i]).wf()
                        &&& filters@[i].config == configs@[i]
                        &&& filters@[i].reflection == all[i].reflection
                        &&& filters@[i].program == all[i].program
                        &&& filters@[i].ubo_location == all[i].ubo_location
                        &&& filters@[i].ubo_ring == all[i].ubo_ring
                        &&& filters@[i].starts_zeroed()
                    },
            decreases configs@.len() - index,
        {
            let pass = rest.remove(0);
            assert(pass == all[index as int]);
            assert(rest@ =~= all.skip(index + 1));
            match FilterPass::new(configs[index], pass.reflection, pass.program, pass.ubo_location, pass.ubo_ring) {
                Ok(filter) => {
                    filters.push(filter);
                },
                Err(error) => {
                    assert(pass_error(all[index as int]) == Some(error));
                    return Err(error);
                },
            }
            index = index + 1;
        }
        Ok(filters)
    }

    /// The number of passes that a chain loaded from a preset enables: the
    /// number that the preset names, but no fewer than none and no more
    /// than there are.
    pub open spec fn enabled_by(shader_count: i32, passes: nat) -> nat {
        if shader_count <= 0 {
            0
        } else if shader_count >= passes {
            passes
        } else {
            shader_count as nat
        }
    }

    /// How the views of the history images are filtered: as the first pass
    /// says, linearly where there is no pass.
    pub open spec fn default_filter(passes: Seq<FilterPass>) -> FilterMode {
        if passes.len() > 0 {
            passes[0].config.filter
        } else {
            FilterMode::Linear
        }
    }

    /// How the views of the history images are addressed: as the first pass
    /// says, clamped to the border where there is no pass.
    pub open spec fn default_wrap(passes: Seq<FilterPass>) -> WrapMode {
        if passes.len() > 0 {
            passes[0].config.wrap_mode
        } else {
            WrapMode::ClampToBorder
        }
    }

    /// Why a chain cannot be loaded from these parts, if it cannot: a pass
    /// without its compiled program, then the first pass that cannot be
    /// built, then a lookup texture that was not loaded.
    pub open spec fn load_error(preset: ShaderPreset, compiled: Seq<CompiledPass>, luts: Seq<LoadedLut>) -> Option<
        FilterChainError,
    > {
        if preset.shaders@.len() != compiled.len() {
            Some(FilterChainError::AllocationMismatch)
        } else if exists|i: int| 0 <= i < compiled.len() && pass_error(#[trigger] compiled[i]) is Some {
            let first = choose|i: int|
                0 <= i < compiled.len() && pass_error(#[trigger] compiled[i]) is Some && forall|j: int|
                    0 <= j < i ==> pass_error(#[trigger] compiled[j]) is None;
            pass_error(compiled[first])
        } else if preset.textures@.len() != luts.len() {
            Some(FilterChainError::LutLoadError)
        } else {
            None
        }
    }

    /// Loads a chain from a parsed preset, what was compiled for each of its
    /// passes, and what was loaded for each of its lookup textures. Every
    /// image of the chain starts as a placeholder of one texel.
    pub fn load_from_preset(preset: ShaderPreset, compiled: Vec<CompiledPass>, luts: Vec<LoadedLut>) -> (result:
        Result<FilterChain, FilterChainError>)
        ensures
            match result {
                Ok(chain) => {
                    &&& Self::load_error(preset, compiled@, luts@) is None
                    &&& chain.wf()
                    &&& chain.passes@.len() == preset.shaders@.len()
                    &&& forall|i: int|
                        0 <= i < chain.passes@.len() ==> {
                            &&& (#[trigger] chain.passes@[i]).config == preset.shaders@[i]
                            &&& chain.passes@[i].reflection == compiled@[i].reflection
                            &&& chain.passes@[i].program == compiled@[i].program
                            &&& chain.passes@[i].ubo_location == compiled@[i].ubo_location
                            &&& chain.passes@[i].ubo_ring == compiled@[i].ubo_ring
                            &&& chain.passes@[i].starts_zeroed()
                        }
                    &&& chain.enabled() == Self::enabled_by(preset.shader_count, chain.passes@.len())
                    &&& chain.output_framebuffers@ == placeholders(chain.passes@)
                    &&& chain.feedback_framebuffers@ == placeholders(chain.passes@)
                    &&& chain.history_framebuffers@ == Seq::new(
                        history_length(chain.passes@),
                        |i: int| placeholder(1),
                    )
                    &&& chain.common.output_textures@ == Seq::new(chain.passes@.len(), |i: int| Texture::absent())
                    &&& chain.common.feedback_textures@ == Seq::new(chain.passes@.len(), |i: int| Texture::absent())
                    &&& chain.common.history_textures@ == Seq::new(
                        history_length(chain.passes@),
                        |i: int|
                            empty_history(Self::default_filter(chain.passes@), Self::default_wrap(chain.passes@)),
                    )
                    &&& lut_textures(chain.common.luts) == Map::new(
                        |i: usize| i < preset.textures@.len(),
                        |i: usize| lut_texture(preset.textures@[i as int], luts@[i as int]),
                    )
                    &&& parameter_values(chain.common.config.parameters) == preset_parameters(
                        preset.parameters@,
                        preset.parameters@.len(),
                    )
                    &&& forall|i: int| 0 <= i < 20 ==> chain.common.samplers@[i] is None
                },
                Err(error) => Self::load_error(preset, compiled@, luts@) == Some(error),
            },
    {
        let filters = match Self::init_passes(&preset.shaders, compiled) {
            Ok(filters) => filters,
            Err(error) => {
                proof {
                    if preset.shaders@.len() == compiled@.len() {
                        let at = choose|i: int|
                            0 <= i < compiled@.len() && pass_error(#[trigger] compiled@[i]) == Some(error)
                                && forall|j: int| 0 <= j < i ==> pass_error(#[trigger] compiled@[j]) is None;
                        let first = choose|i: int|
                            0 <= i < compiled@.len() && pass_error(#[trigger] compiled@[i]) is Some && forall|j: int|
                                0 <= j < i ==> pass_error(#[trigger] compiled@[j]) is None;
                        assert(pass_error(compiled@[at]) is Some);
                        if first < at {
                            assert(pass_error(compiled@[first]) is None);
                        }
                        if at < first {
                            assert(pass_error(compiled@[at]) is None);
                        }
                    }
                }
                return Err(error);
            },
        };
        let lut_table = match Self::load_luts(&preset.textures, &luts) {
            Ok(table) => table,
            Err(error) => {
                return Err(error);
            },
        };
        let count = filters.len();
        let (default_filter, default_wrap) = if count > 0 {
            (filters[0].config.filter, filters[0].config.wrap_mode)
        } else {
            (FilterMode::Linear, WrapMode::ClampToBorder)
        };
        let mut output_framebuffers: Vec<Gl3Framebuffer> = Vec::new();
        let mut feedback_framebuffers: Vec<Gl3Framebuffer> = Vec::new();
        let mut output_textures: Vec<Texture> = Vec::new();
        let mut feedback_textures: Vec<Texture> = Vec::new();
        let mut made: usize = 0;
        while made < count
            invariant
                made <= count,
                count == filters@.len(),
                output_framebuffers@ == placeholders(filters@).take(made as int),
                feedback_framebuffers@ == placeholders(filters@).take(made as int),
                output_textures@ == Seq::new(made as nat, |i: int| Texture::absent()),
                feedback_textures@ == Seq::new(made as nat, |i: int| Texture::absent()),
            decreases count - made,
        {
            let limit: u32 = if filters[made].config.mipmap { u32::MAX } else { 1 };
            output_framebuffers.push(Gl3Framebuffer::new(limit));
            feedback_framebuffers.push(Gl3Framebuffer::new(limit));
            output_textures.push(Texture::none());
            feedback_textures.push(Texture::none());
            made = made + 1;
            assert(output_framebuffers@ =~= placeholders(filters@).take(made as int));
            assert(feedback_framebuffers@ =~= placeholders(filters@).take(made as int));
            assert(output_textures@ =~= Seq::new(made as nat, |i: int| Texture::absent()));
            assert(feedback_textures@ =~= Seq::new(made as nat, |i: int| Texture::absent()));
        }
        assert(output_framebuffers@ =~= placeholders(filters@));
        assert(feedback_framebuffers@ =~= placeholders(filters@));
        let (history_framebuffers, history_textures) = Self::init_history(&filters, default_filter, default_wrap);
        let mut parameters = parameters_new();
        let mut set: usize = 0;
        while set < preset.parameters.len()
            invariant
                set <= preset.parameters@.len(),
                parameter_values(parameters) == preset_parameters(preset.parameters@, set as nat),
            decreases preset.parameters@.len() - set,
        {
            let name = preset.parameters[set].name.clone();
            parameters_insert(&mut parameters, name, preset.parameters[set].value);
            set = set + 1;
        }
        let passes_enabled = if preset.shader_count <= 0 {
            0
        } else if preset.shader_count as usize >= count {
            count
        } else {
            preset.shader_count as usize
        };
        proof {
            reveal_with_fuel(bit_length, 2);
        }
        Ok(
            FilterChain {
                passes: filters,
                common: FilterCommon {
                    config: FilterMutable { passes_enabled, parameters },
                    luts: lut_table,
                    samplers: SamplerSet::new(),
                    output_textures,
                    feedback_textures,
                    history_textures,
                },
                output_framebuffers,
                feedback_framebuffers,
                history_framebuffers,
            },
        )
    }

    /// Enables the first `count` passes, or all of them where there are
    /// fewer.
    pub fn set_passes_enabled(&mut self, count: usize)
        requires
            old(self).wf(),
        ensures
            final(self).wf(),
            final(self).enabled() == (if count <= old(self).passes@.len() {
                count as nat
            } else {
                old(self).passes@.len()
            }),
            final(self).passes == old(self).passes,
            final(self).output_framebuffers == old(self).output_framebuffers,
            final(self).feedback_framebuffers == old(self).feedback_framebuffers,
            final(self).history_framebuffers == old(self).history_framebuffers,
            final(self).common.luts == old(self).common.luts,
            final(self).common.samplers == old(self).common.samplers,
            final(self).common.output_textures == old(self).common.output_textures,
            final(self).common.feedback_textures == old(self).common.feedback_textures,
            final(self).common.history_textures == old(self).common.history_textures,
            final(self).common.config.parameters == old(self).common.config.parameters,
    {
        self.common.config.passes_enabled = if count <= self.passes.len() {
            count
        } else {
            self.passes.len()
        };
    }

    /// Sets the user's value of a parameter, as single-precision bits.
    pub fn set_parameter(&mut self, name: String, value: u32)
        requires
            old(self).wf(),
        ensures
            final(self).wf(),
            parameter_values(final(self).common.config.parameters) == parameter_values(
                old(self).common.config.parameters,
            ).insert(name@, value),
            final(self).enabled() == old(self).enabled(),
            final(self).passes == old(self).passes,
            final(self).output_framebuffers == old(self).output_framebuffers,
            final(self).feedback_framebuffers == old(self).feedback_framebuffers,
            final(self).history_framebuffers == old(self).history_framebuffers,
            final(self).common.luts == old(self).common.luts,
            final(self).common.samplers == old(self).common.samplers,
            final(self).common.output_textures == old(self).common.output_textures,
            final(self).common.feedback_textures == old(self).common.feedback_textures,
            final(self).common.history_textures == old(self).common.history_textures,
    {
        parameters_insert(&mut self.common.config.parameters, name, value);
    }

    /// The size of the image that pass `i` reads as its source: the frame's
    /// input for the first pass, else the output of the pass before, which
    /// is its scale rule resolved against its own source.
    pub open spec fn source_size(&self, i: nat, viewport: Size, input: Size) -> Size
        decreases i,
    {
        if i == 0 {
            input
        } else {
            self.passes@[i - 1].config.scaling.resolved(
                self.source_size((i - 1) as nat, viewport, input),
                viewport,
                input,
            )
        }
    }

    /// The size of the output of pass `i`.
    pub open spec fn output_size(&self, i: nat, viewport: Size, input: Size) -> Size {
        self.source_size(i + 1, viewport, input)
    }

    /// Whether the output image of pass `i` has to be reallocated for a
    /// frame.
    pub open spec fn output_needs(&self, i: nat, viewport: Size, input: Size) -> bool {
        self.output_framebuffers@[i as int].needs_init(
            self.output_size(i, viewport, input),
            self.passes@[i as int].config.format,
        )
    }

    /// Whether the feedback image of pass `i` has to be reallocated for a
    /// frame.
    pub open spec fn feedback_needs(&self, i: nat, viewport: Size, input: Size) -> bool {
        self.feedback_framebuffers@[i as int].needs_init(
            self.output_size(i, viewport, input),
            self.passes@[i as int].config.format,
        )
    }

    /// What pass `i` asks the backend to allocate for a frame: its output
    /// image, then its feedback image, each only where it has to change.
    pub open spec fn pass_requests(&self, i: nat, viewport: Size, input: Size) -> Seq<TextureRequest> {
        let output = if self.output_needs(i, viewport, input) {
            seq![
                self.output_framebuffers@[i as int].request_for(
                    self.output_size(i, viewport, input),
                    self.passes@[i as int].config.format,
                ),
            ]
        } else {
            Seq::<TextureRequest>::empty()
        };
        let feedback = if self.feedback_needs(i, viewport, input) {
            seq![
                self.feedback_framebuffers@[i as int].request_for(
                    self.output_size(i, viewport, input),
                    self.passes@[i as int].config.format,
                ),
            ]
        } else {
            Seq::<TextureRequest>::empty()
        };
        output + feedback
    }

    /// What the first `upto` passes ask the backend to allocate.
    pub open spec fn resize_requests(&self, upto: nat, viewport: Size, input: Size) -> Seq<TextureRequest>
        decreases upto,
    {
        if upto == 0 {
            Seq::<TextureRequest>::empty()
        } else {
            self.resize_requests((upto - 1) as nat, viewport, input) + self.pass_requests(
                (upto - 1) as nat,
                viewport,
                input,
            )
        }
    }

    /// Whether the oldest history image has to be reallocated to take a copy
    /// of `input`.
    pub open spec fn history_needs(&self, input: GlImage) -> bool {
        self.history_framebuffers@.len() > 0 && self.history_framebuffers@.last().needs_init(
            input.size,
            input.format,
        )
    }

    /// What keeping `input` as history asks the backend to allocate.
    pub open spec fn history_requests(&self, input: GlImage) -> Seq<TextureRequest> {
        if self.history_needs(input) {
            seq![self.history_framebuffers@.last().request_for(input.size, input.format)]
        } else {
            Seq::<TextureRequest>::empty()
        }
    }

    /// Everything that a frame asks the backend to allocate, in the order in
    /// which the answers are expected: pass by pass, then the history. A
    /// chain without enabled passes asks for nothing.
    pub open spec fn requests(&self, viewport: Size, input: GlImage) -> Seq<TextureRequest> {
        if self.enabled() == 0 {
            Seq::<TextureRequest>::empty()
        } else {
            self.resize_requests(self.enabled(), viewport, input.size) + self.history_requests(input)
        }
    }

    /// The backend's answer to the request at `index`, if it has answered
    /// that many.
    pub open spec fn answer_at(allocations: Seq<Allocation>, index: int) -> Option<Allocation> {
        if 0 <= index < allocations.len() {
            Some(allocations[index])
        } else {
            None
        }
    }

    /// The output image of pass `i` once the frame has resized it. An image
    /// whose request is not answered stays as it is.
    pub open spec fn sized_output(&self, i: nat, viewport: Size, input: Size, allocations: Seq<Allocation>) -> Gl3Framebuffer {
        self.output_framebuffers@[i as int].resized(
            self.output_size(i, viewport, input),
            self.passes@[i as int].config.format,
            if self.output_needs(i, viewport, input) {
                Self::answer_at(allocations, self.resize_requests(i, viewport, input).len() as int)
            } else {
                None
            },
        )
    }

    /// The feedback image of pass `i` once the frame has resized it.
    pub open spec fn sized_feedback(&self, i: nat, viewport: Size, input: Size, allocations: Seq<Allocation>) -> Gl3Framebuffer {
        self.feedback_framebuffers@[i as int].resized(
            self.output_size(i, viewport, input),
            self.passes@[i as int].config.format,
            self.feedback_answer(i, viewport, input, allocations),
        )
    }

    /// The backend's answer to the request for the feedback image of pass
    /// `i`, if there is such a request and it is answered.
    pub open spec fn feedback_answer(&self, i: nat, viewport: Size, input: Size, allocations: Seq<Allocation>) -> Option<
        Allocation,
    > {
        if self.feedback_needs(i, viewport, input) {
            Self::answer_at(
                allocations,
                self.resize_requests(i, viewport, input).len() + (if self.output_needs(i, viewport, input) {
                    1int
                } else {
                    0int
                }),
            )
        } else {
            None
        }
    }

    /// The oldest history image once it was resized to take a copy of
    /// `input`.
    pub open spec fn sized_history(&self, viewport: Size, input: GlImage, allocations: Seq<Allocation>) -> Gl3Framebuffer {
        self.history_framebuffers@.last().resized(
            input.size,
            input.format,
            if self.history_needs(input) {
                Self::answer_at(allocations, self.resize_requests(self.enabled(), viewport, input.size).len() as int)
            } else {
                None
            },
        )
    }

    /// The requests that the backend has to answer before
    /// [`FilterChain::frame`] is called with the same viewport and input.
    pub fn frame_requests(&self, viewport: &Viewport, input: &GlImage) -> (requests: Vec<TextureRequest>)
        requires
            self.wf(),
        ensures
            requests@ == self.requests(viewport.output.size, *input),
    {
        let mut requests: Vec<TextureRequest> = Vec::new();
        let enabled = self.common.config.passes_enabled;
        if enabled == 0 {
            return requests;
        }
        let mut source = input.size;
        let mut i: usize = 0;
        while i < enabled
            invariant
                i <= enabled,
                enabled == self.enabled(),
                self.wf(),
                source == self.source_size(i as nat, viewport.output.size, input.size),
                requests@ == self.resize_requests(i as nat, viewport.output.size, input.size),
            decreases enabled - i,
        {
            let config = &self.passes[i].config;
            let size = resolve_scale(config.scaling, source, viewport.output.size, input.size);
            let ghost before = requests@;
            match self.output_framebuffers[i].init_request(size, config.format) {
                Some(request) => {
                    requests.push(request);
                },
                None => {},
            }
            match self.feedback_framebuffers[i].init_request(size, config.format) {
                Some(request) => {
                    requests.push(request);
                },
                None => {},
            }
            assert(requests@ =~= before + self.pass_requests(i as nat, viewport.output.size, input.size));
            source = size;
            i = i + 1;
        }
        let ghost resized = requests@;
        if self.history_framebuffers.len() > 0 {
            let back = &self.history_framebuffers[self.history_framebuffers.len() - 1];
            match back.init_request(input.size, input.format) {
                Some(request) => {
                    requests.push(request);
                },
                None => {},
            }
        }
        assert(requests@ =~= resized + self.history_requests(*input));
        requests
    }

    /// More passes never ask for fewer allocations.
    pub proof fn lemma_requests_grow(&self, fewer: nat, more: nat, viewport: Size, input: Size)
        requires
            fewer <= more,
        ensures
            self.resize_requests(fewer, viewport, input).len() <= self.resize_requests(more, viewport, input).len(),
            self.resize_requests(fewer, viewport, input).len() + self.pass_requests(fewer, viewport, input).len()
                <= self.resize_requests(more, viewport, input).len() || fewer == more,
        decreases more - fewer,
    {
        if fewer < more {
            self.lemma_requests_grow(fewer, (more - 1) as nat, viewport, input);
        }
    }

    /// The commands that clear the feedback images that a frame allocates
    /// for the first `upto` passes. A feedback image is read before any pass
    /// has rendered into it; one that was just made is cleared, so that it
    /// reads as black.
    pub open spec fn feedback_clears(&self, upto: nat, viewport: Size, input: Size, allocations: Seq<Allocation>) -> Seq<
        Command,
    >
        decreases upto,
    {
        if upto == 0 {
            Seq::<Command>::empty()
        } else {
            let i = (upto - 1) as nat;
            self.feedback_clears(i, viewport, input, allocations) + (if self.feedback_answer(
                i,
                viewport,
                input,
                allocations,
            ) is Some {
                self.sized_feedback(i, viewport, input, allocations).clear_commands(true)
            } else {
                Seq::<Command>::empty()
            })
        }
    }

    /// The images of a chain whose first passes are resized for a frame.
    pub open spec fn sized_outputs(&self, viewport: Size, input: Size, allocations: Seq<Allocation>) -> Seq<
        Gl3Framebuffer,
    > {
        Seq::new(
            self.output_framebuffers@.len(),
            |j: int|
                if j < self.enabled() {
                    self.sized_output(j as nat, viewport, input, allocations)
                } else {
                    self.output_framebuffers@[j]
                },
        )
    }

    /// The feedback images of a chain whose first passes are resized for a
    /// frame.
    pub open spec fn sized_feedbacks(&self, viewport: Size, input: Size, allocations: Seq<Allocation>) -> Seq<
        Gl3Framebuffer,
    > {
        Seq::new(
            self.feedback_framebuffers@.len(),
            |j: int|
                if j < self.enabled() {
                    self.sized_feedback(j as nat, viewport, input, allocations)
                } else {
                    self.feedback_framebuffers@[j]
                },
        )
    }

    /// Resizes the output and the feedback image of every enabled pass to
    /// what the pass's scale rule resolves to, each pass scaling the size
    /// that the pass before it is given. An image whose request the backend
    /// has not answered stays as it is.
    fn resize_targets(&mut self, viewport: Size, input: Size, allocations: &[Allocation]) -> (clears: Vec<Command>)
        requires
            old(self).wf(),
        ensures
            final(self).wf(),
            clears@ == old(self).feedback_clears(old(self).enabled(), viewport, input, allocations@),
            final(self).passes == old(self).passes,
            final(self).common == old(self).common,
            final(self).history_framebuffers == old(self).history_framebuffers,
            final(self).output_framebuffers@ == old(self).sized_outputs(viewport, input, allocations@),
            final(self).feedback_framebuffers@ == old(self).sized_feedbacks(viewport, input, allocations@),
    {
        let enabled = self.common.config.passes_enabled;
        let mut clears: Vec<Command> = Vec::new();
        let mut source = input;
        let mut cursor: usize = 0;
        let mut i: usize = 0;
        while i < enabled
            invariant
                i <= enabled,
                enabled == old(self).enabled(),
                old(self).wf(),
                self.wf(),
                clears@ == old(self).feedback_clears(i as nat, viewport, input, allocations@),
                self.passes == old(self).passes,
                self.common == old(self).common,
                self.history_framebuffers == old(self).history_framebuffers,
                self.output_framebuffers@.len() == old(self).output_framebuffers@.len(),
                self.feedback_framebuffers@.len() == old(self).feedback_framebuffers@.len(),
                cursor == (if old(self).resize_requests(i as nat, viewport, input).len() < allocations@.len() {
                    old(self).resize_requests(i as nat, viewport, input).len()
                } else {
                    allocations@.len()
                }),
                source == old(self).source_size(i as nat, viewport, input),
                forall|j: int|
                    0 <= j < self.output_framebuffers@.len() ==> #[trigger] self.output_framebuffers@[j] == (if j
                        < i {
                        old(self).sized_output(j as nat, viewport, input, allocations@)
                    } else {
                        old(self).output_framebuffers@[j]
                    }),
                forall|j: int|
                    0 <= j < self.feedback_framebuffers@.len() ==> #[trigger] self.feedback_framebuffers@[j] == (if j
                        < i {
                        old(self).sized_feedback(j as nat, viewport, input, allocations@)
                    } else {
                        old(self).feedback_framebuffers@[j]
                    }),
            decreases enabled - i,
        {
            let config = self.passes[i].config;
            let size = resolve_scale(config.scaling, source, viewport, input);
            let ghost asked = old(self).resize_requests(i as nat, viewport, input).len();
            let ghost wanted = old(self).output_needs(i as nat, viewport, input);
            let ghost earlier = clears@;
            proof {
                assert(size == old(self).output_size(i as nat, viewport, input));
                assert(old(self).resize_requests((i + 1) as nat, viewport, input) == old(self).resize_requests(
                    i as nat,
                    viewport,
                    input,
                ) + old(self).pass_requests(i as nat, viewport, input));
            }
            let mut output = self.output_framebuffers[i];
            let (_, next) = resize_one(&mut output, size, config.format, allocations, cursor);
            assert(output == old(self).sized_output(i as nat, viewport, input, allocations@));
            cursor = next;
            self.output_framebuffers.set(i, output);
            let mut feedback = self.feedback_framebuffers[i];
            let (answered, next) = resize_one(&mut feedback, size, config.format, allocations, cursor);
            assert(answered == (old(self).feedback_answer(i as nat, viewport, input, allocations@) is Some));
            assert(feedback == old(self).sized_feedback(i as nat, viewport, input, allocations@));
            cursor = next;
            self.feedback_framebuffers.set(i, feedback);
            if answered {
                let mut clear = feedback.clear(true);
                clears.append(&mut clear);
            }
            assert(clears@ =~= old(self).feedback_clears((i + 1) as nat, viewport, input, allocations@));
            source = size;
            i = i + 1;
        }
        assert(self.output_framebuffers@ =~= old(self).sized_outputs(viewport, input, allocations@));
        assert(self.feedback_framebuffers@ =~= old(self).sized_feedbacks(viewport, input, allocations@));
        clears
    }

    /// The views of the history images, sampled as the first pass says.
    pub open spec fn history_views(&self) -> Seq<Texture> {
        Seq::new(
            self.history_framebuffers@.len(),
            |k: int|
                self.history_framebuffers@[k].sampled(
                    Self::default_filter(self.passes@),
                    Self::default_wrap(self.passes@),
                ),
        )
    }

    /// The views of the feedback images, each sampled as its pass says; the
    /// views of disabled passes stay as they are.
    pub open spec fn feedback_views(&self) -> Seq<Texture> {
        Seq::new(
            self.common.feedback_textures@.len(),
            |j: int|
                if j < self.enabled() {
                    self.feedback_framebuffers@[j].sampled(
                        self.passes@[j].config.filter,
                        self.passes@[j].config.wrap_mode,
                    )
                } else {
                    self.common.feedback_textures@[j]
                },
        )
    }

    /// Takes the views of the history and the feedback images that the
    /// passes of this frame sample.
    fn update_views(&mut self)
        requires
            old(self).wf(),
            old(self).enabled() >= 1,
        ensures
            final(self).wf(),
            final(self).passes == old(self).passes,
            final(self).output_framebuffers == old(self).output_framebuffers,
            final(self).feedback_framebuffers == old(self).feedback_framebuffers,
            final(self).history_framebuffers == old(self).history_framebuffers,
            final(self).common.config == old(self).common.config,
            final(self).common.luts == old(self).common.luts,
            final(self).common.samplers == old(self).common.samplers,
            final(self).common.output_textures == old(self).common.output_textures,
            final(self).common.history_textures@ == old(self).history_views(),
            final(self).common.feedback_textures@ == old(self).feedback_views(),
    {
        let filter = self.passes[0].config.filter;
        let wrap_mode = self.passes[0].config.wrap_mode;
        let mut k: usize = 0;
        while k < self.history_framebuffers.len()
            invariant
                k <= self.history_framebuffers@.len(),
                self.wf(),
                self.enabled() >= 1,
                filter == Self::default_filter(self.passes@),
                wrap_mode == Self::default_wrap(self.passes@),
                self.passes == old(self).passes,
                self.output_framebuffers == old(self).output_framebuffers,
                self.feedback_framebuffers == old(self).feedback_framebuffers,
                self.history_framebuffers == old(self).history_framebuffers,
                self.common.config == old(self).common.config,
                self.common.luts == old(self).common.luts,
                self.common.samplers == old(self).common.samplers,
                self.common.output_textures == old(self).common.output_textures,
                self.common.feedback_textures == old(self).common.feedback_textures,
                forall|j: int|
                    0 <= j < k ==> #[trigger] self.common.history_textures@[j] == self.history_framebuffers@[j].sampled(
                        filter,
                        wrap_mode,
                    ),
            decreases self.history_framebuffers@.len() - k,
        {
            let view = self.history_framebuffers[k].as_texture(filter, wrap_mode);
            self.common.history_textures.set(k, view);
            k = k + 1;
        }
        assert(self.common.history_textures@ =~= old(self).history_views());
        let enabled = self.common.config.passes_enabled;
        let mut i: usize = 0;
        while i < enabled
            invariant
                i <= enabled,
                enabled == self.enabled(),
                self.wf(),
                self.passes == old(self).passes,
                self.output_framebuffers == old(self).output_framebuffers,
                self.feedback_framebuffers == old(self).feedback_framebuffers,
                self.history_framebuffers == old(self).history_framebuffers,
                self.common.config == old(self).common.config,
                self.common.luts == old(self).common.luts,
                self.common.samplers == old(self).common.samplers,
                self.common.output_textures == old(self).common.output_textures,
                self.common.history_textures@ == old(self).history_views(),
                self.common.feedback_textures@.len() == old(self).common.feedback_textures@.len(),
                forall|j: int|
                    0 <= j < self.common.feedback_textures@.len() ==> #[trigger] self.common.feedback_textures@[j]
                        == (if j < i {
                        self.feedback_framebuffers@[j].sampled(
                            self.passes@[j].config.filter,
                            self.passes@[j].config.wrap_mode,
                        )
                    } else {
                        old(self).common.feedback_textures@[j]
                    }),
            decreases enabled - i,
        {
            let view = self.feedback_framebuffers[i].as_texture(
                self.passes[i].config.filter,
                self.passes[i].config.wrap_mode,
            );
            self.common.feedback_textures.set(i, view);
            i = i + 1;
        }
        assert(self.common.feedback_textures@ =~= old(self).feedback_views());
    }

    /// The images of a chain after the outputs and the feedback images of
    /// its enabled passes changed places.
    pub open spec fn swapped(first: Seq<Gl3Framebuffer>, second: Seq<Gl3Framebuffer>, enabled: nat) -> Seq<
        Gl3Framebuffer,
    > {
        Seq::new(
            first.len(),
            |j: int|
                if j < enabled {
                    second[j]
                } else {
                    first[j]
                },
        )
    }

    /// Lets the output and the feedback image of every enabled pass change
    /// places, so that the next frame finds this frame's outputs as its
    /// feedback.
    fn swap_targets(&mut self)
        requires
            old(self).wf(),
        ensures
            final(self).wf(),
            final(self).passes == old(self).passes,
            final(self).common == old(self).common,
            final(self).history_framebuffers == old(self).history_framebuffers,
            final(self).output_framebuffers@ == Self::swapped(
                old(self).output_framebuffers@,
                old(self).feedback_framebuffers@,
                old(self).enabled(),
            ),
            final(self).feedback_framebuffers@ == Self::swapped(
                old(self).feedback_framebuffers@,
                old(self).output_framebuffers@,
                old(self).enabled(),
            ),
    {
        let enabled = self.common.config.passes_enabled;
        let mut i: usize = 0;
        while i < enabled
            invariant
                i <= enabled,
                enabled == old(self).enabled(),
                old(self).wf(),
                self.wf(),
                self.passes == old(self).passes,
                self.common == old(self).common,
                self.history_framebuffers == old(self).history_framebuffers,
                self.output_framebuffers@.len() == old(self).output_framebuffers@.len(),
                self.feedback_framebuffers@.len() == old(self).feedback_framebuffers@.len(),
                forall|j: int|
                    0 <= j < self.output_framebuffers@.len() ==> #[trigger] self.output_framebuffers@[j] == (if j
                        < i {
                        old(self).feedback_framebuffers@[j]
                    } else {
                        old(self).output_framebuffers@[j]
                    }),
                forall|j: int|
                    0 <= j < self.feedback_framebuffers@.len() ==> #[trigger] self.feedback_framebuffers@[j] == (if j
                        < i {
                        old(self).output_framebuffers@[j]
                    } else {
                        old(self).feedback_framebuffers@[j]
                    }),
            decreases enabled - i,
        {
            let output = self.output_framebuffers[i];
            let feedback = self.feedback_framebuffers[i];
            self.output_framebuffers.set(i, feedback);
            self.feedback_framebuffers.set(i, output);
            i = i + 1;
        }
        assert(self.output_framebuffers@ =~= Self::swapped(
            old(self).output_framebuffers@,
            old(self).feedback_framebuffers@,
            old(self).enabled(),
        ));
        assert(self.feedback_framebuffers@ =~= Self::swapped(
            old(self).feedback_framebuffers@,
            old(self).output_framebuffers@,
            old(self).enabled(),
        ));
    }

    /// The commands that clear the first `upto` history images, those left
    /// out that have nothing allocated.
    pub open spec fn clear_commands(history: Seq<Gl3Framebuffer>, upto: nat) -> Seq<Command>
        decreases upto,
    {
        if upto == 0 {
            Seq::<Command>::empty()
        } else {
            Self::clear_commands(history, (upto - 1) as nat) + (if history[upto - 1].image != 0 {
                history[upto - 1].clear_commands(true)
            } else {
                Seq::<Command>::empty()
            })
        }
    }

    /// The commands that clear every history image.
    fn clear_history(&self) -> (commands: Vec<Command>)
        ensures
            commands@ == Self::clear_commands(self.history_framebuffers@, self.history_framebuffers@.len()),
    {
        let mut commands: Vec<Command> = Vec::new();
        let mut k: usize = 0;
        while k < self.history_framebuffers.len()
            invariant
                k <= self.history_framebuffers@.len(),
                commands@ == Self::clear_commands(self.history_framebuffers@, k as nat),
            decreases self.history_framebuffers@.len() - k,
        {
            let image = &self.history_framebuffers[k];
            if image.image != 0 {
                let mut clear = image.clear(true);
                let ghost before = commands@;
                commands.append(&mut clear);
                assert(commands@ =~= before + image.clear_commands(true));
            }
            k = k + 1;
        }
        commands
    }

    /// The chain as its passes see it when they are drawn as it stands.
    pub open spec fn stage(&self, count: u64, direction: i32, viewport: Viewport, input: GlImage) -> Stage {
        Stage {
            passes: self.passes@,
            enabled: self.enabled(),
            targets: self.output_framebuffers@,
            outputs: self.common.output_textures@,
            feedback: self.common.feedback_textures@,
            history: self.common.history_textures@,
            luts: lut_textures(self.common.luts),
            parameters: parameter_values(self.common.config.parameters),
            count,
            direction,
            viewport,
            input,
        }
    }

    /// Whether `after` is this chain once the passes of `stage` are drawn:
    /// every enabled pass has its uniforms written, every pass but the last
    /// has the view of its output taken, and nothing else has changed.
    pub open spec fn drawn(&self, after: &FilterChain, stage: Stage) -> bool {
        &&& after.passes@.len() == self.passes@.len()
        &&& forall|i: int|
            0 <= i < self.enabled() ==> (#[trigger] after.passes@[i]).uniform_storage@ == stage.storage(i)
                && self.passes@[i].same_program(&after.passes@[i])
        &&& forall|i: int| self.enabled() <= i < self.passes@.len() ==> #[trigger] after.passes@[i] == self.passes@[i]
        &&& after.common.output_textures@ == stage.outputs_after()
        &&& after.common.feedback_textures == self.common.feedback_textures
        &&& after.common.history_textures == self.common.history_textures
        &&& after.common.luts == self.common.luts
        &&& after.common.samplers == self.common.samplers
        &&& after.common.config == self.common.config
    }

    /// Draws the enabled passes, each into its own output image and the last
    /// into the caller's viewport.
    fn draw_passes(&mut self, count: u64, direction: i32, viewport: &Viewport, input: &GlImage) -> (commands: Vec<
        Command,
    >)
        requires
            old(self).wf(),
            old(self).enabled() >= 1,
        ensures
            final(self).wf(),
            commands@ == old(self).stage(count, direction, *viewport, *input).draws(old(self).enabled()),
            old(self).drawn(final(self), old(self).stage(count, direction, *viewport, *input)),
            final(self).output_framebuffers == old(self).output_framebuffers,
            final(self).feedback_framebuffers == old(self).feedback_framebuffers,
            final(self).history_framebuffers == old(self).history_framebuffers,
    {
        let ghost stage = self.stage(count, direction, *viewport, *input);
        let enabled = self.common.config.passes_enabled;
        let slot = ring_slot(count);
        let original = Texture {
            image: *input,
            filter: self.passes[0].config.filter,
            mip_filter: self.passes[0].config.filter,
            wrap_mode: self.passes[0].config.wrap_mode,
        };
        let mut source = original;
        let mut commands: Vec<Command> = Vec::new();
        let mut i: usize = 0;
        while i < enabled
            invariant
                i <= enabled,
                enabled == old(self).enabled(),
                enabled >= 1,
                old(self).wf(),
                self.wf(),
                stage == old(self).stage(count, direction, *viewport, *input),
                slot == crate::uniforms::ring_slot_of(count),
                original == stage.original(),
                i < enabled ==> source == (if i == 0 {
                    stage.original()
                } else {
                    stage.output_view(i - 1)
                }),
                commands@ == stage.draws(i as nat),
                self.output_framebuffers == old(self).output_framebuffers,
                self.feedback_framebuffers == old(self).feedback_framebuffers,
                self.history_framebuffers == old(self).history_framebuffers,
                self.common.feedback_textures == old(self).common.feedback_textures,
                self.common.history_textures == old(self).common.history_textures,
                self.common.luts == old(self).common.luts,
                self.common.samplers == old(self).common.samplers,
                self.common.config == old(self).common.config,
                self.passes@.len() == old(self).passes@.len(),
                self.common.output_textures@.len() == old(self).common.output_textures@.len(),
                forall|j: int|
                    0 <= j < i ==> (#[trigger] self.passes@[j]).uniform_storage@ == stage.storage(j) && old(
                        self,
                    ).passes@[j].same_program(&self.passes@[j]),
                forall|j: int| i <= j < self.passes@.len() ==> #[trigger] self.passes@[j] == old(self).passes@[j],
                forall|j: int|
                    0 <= j < self.common.output_textures@.len() ==> #[trigger] self.common.output_textures@[j] == (if j
                        < i && j + 1 < enabled {
                        stage.output_view(j)
                    } else {
                        old(self).common.output_textures@[j]
                    }),
            decreases enabled - i,
        {
            let last = i + 1 == enabled;
            let config = self.passes[i].config;
            let target = if last {
                RenderTarget { framebuffer: viewport.output, mvp: viewport.mvp, x: viewport.x, y: viewport.y }
            } else {
                RenderTarget { framebuffer: self.output_framebuffers[i], mvp: None, x: 0, y: 0 }
            };
            let sampled = if last {
                Texture {
                    image: source.image,
                    filter: config.filter,
                    mip_filter: config.filter,
                    wrap_mode: source.wrap_mode,
                }
            } else {
                source
            };
            let frame_count = self.passes[i].frame_count(count);
            proof {
                assert(earlier(self.common.output_textures@, i as nat) =~= stage.visible(i as int));
                assert(FilterPass::bindings(
                    i,
                    &self.common,
                    frame_count,
                    direction,
                    viewport,
                    original,
                    sampled,
                    target,
                ) == stage.bindings(i as int));
            }
            let ghost before = self.passes@;
            let pass = &mut self.passes[i];
            let mut draw = pass.draw(
                i,
                &self.common,
                frame_count,
                direction,
                slot,
                viewport,
                &original,
                &sampled,
                target,
            );
            commands.append(&mut draw);
            assert(forall|j: int| 0 <= j < before.len() && j != i ==> #[trigger] self.passes@[j] == before[j]);
            assert(self.passes@[i as int].uniform_storage@ == stage.storage(i as int));
            assert(old(self).passes@[i as int].same_program(&self.passes@[i as int]));
            if !last {
                let view = self.output_framebuffers[i].as_texture(config.filter, config.wrap_mode);
                self.common.output_textures.set(i, view);
                source = view;
            }
            i = i + 1;
        }
        assert(self.common.output_textures@ =~= stage.outputs_after());
        commands
    }

    /// The history images after the oldest took a copy of a frame's input
    /// and became the most recent.
    pub open spec fn rotated(history: Seq<Gl3Framebuffer>, kept: Gl3Framebuffer) -> Seq<Gl3Framebuffer> {
        if history.len() == 0 {
            history
        } else {
            seq![kept] + history.drop_last()
        }
    }

    /// Keeps `input` as the most recent history image: the oldest image is
    /// resized to the input where size or format differ, takes a copy of it
    /// and moves to the front. A chain without history keeps nothing.
    pub fn push_history(&mut self, input: &GlImage, allocation: Option<Allocation>) -> (result: Result<
        Vec<Command>,
        FilterChainError,
    >)
        requires
            old(self).wf(),
        ensures
            final(self).wf(),
            final(self).passes == old(self).passes,
            final(self).common == old(self).common,
            final(self).output_framebuffers == old(self).output_framebuffers,
            final(self).feedback_framebuffers == old(self).feedback_framebuffers,
            (old(self).history_needs(*input) <==> allocation is Some) ==> result is Ok && ({
                let kept = old(self).history_framebuffers@.last().resized(input.size, input.format, allocation);
                &&& final(self).history_framebuffers@ == Self::rotated(old(self).history_framebuffers@, kept)
                &&& result->Ok_0@ == (if old(self).history_framebuffers@.len() == 0 {
                    Seq::<Command>::empty()
                } else {
                    kept.copy_commands(*input)
                })
            }),
            !(old(self).history_needs(*input) <==> allocation is Some) ==> result is Err && result->Err_0
                == FilterChainError::AllocationMismatch && final(self).history_framebuffers == old(
                self,
            ).history_framebuffers,
    {
        let length = self.history_framebuffers.len();
        if length == 0 {
            return if allocation.is_none() {
                Ok(Vec::new())
            } else {
                Err(FilterChainError::AllocationMismatch)
            };
        }
        let mut back = self.history_framebuffers[length - 1];
        match back.copy_from(input, allocation) {
            Ok(commands) => {
                let _ = self.history_framebuffers.pop_back();
                self.history_framebuffers.push_front(back);
                assert(self.history_framebuffers@ =~= Self::rotated(old(self).history_framebuffers@, back));
                Ok(commands)
            },
            Err(error) => Err(error),
        }
    }

    /// The chain as its passes see it in a frame: its images resized with
    /// what the backend allocated, and the views of feedback and history
    /// taken of the resized images.
    pub open spec fn frame_stage(
        &self,
        count: u64,
        direction: i32,
        viewport: Viewport,
        input: GlImage,
        allocations: Seq<Allocation>,
    ) -> Stage {
        Stage {
            passes: self.passes@,
            enabled: self.enabled(),
            targets: self.sized_outputs(viewport.output.size, input.size, allocations),
            outputs: self.common.output_textures@,
            feedback: Seq::new(
                self.common.feedback_textures@.len(),
                |j: int|
                    if j < self.enabled() {
                        self.sized_feedback(j as nat, viewport.output.size, input.size, allocations).sampled(
                            self.passes@[j].config.filter,
                            self.passes@[j].config.wrap_mode,
                        )
                    } else {
                        self.common.feedback_textures@[j]
                    },
            ),
            history: self.history_views(),
            luts: lut_textures(self.common.luts),
            parameters: parameter_values(self.common.config.parameters),
            count,
            direction,
            viewport,
            input,
        }
    }

    /// The commands that keep a frame's input as history.
    pub open spec fn history_commands(&self, viewport: Size, input: GlImage, allocations: Seq<Allocation>) -> Seq<
        Command,
    > {
        if self.history_framebuffers@.len() == 0 {
            Seq::<Command>::empty()
        } else {
            self.sized_history(viewport, input, allocations).copy_commands(input)
        }
    }

    /// The commands of a frame: make the quads current, clear the history
    /// where that is asked for, clear the feedback images that were just
    /// made, draw the enabled passes in their order, keep the input as
    /// history, and let go of the quads.
    pub open spec fn frame_commands(
        &self,
        count: u64,
        viewport: Viewport,
        input: GlImage,
        clear: bool,
        direction: i32,
        allocations: Seq<Allocation>,
    ) -> Seq<Command> {
        seq![Command::BindVertices] + (if clear {
            Self::clear_commands(self.history_framebuffers@, self.history_framebuffers@.len())
        } else {
            Seq::<Command>::empty()
        }) + self.feedback_clears(self.enabled(), viewport.output.size, input.size, allocations)
            + self.frame_stage(count, direction, viewport, input, allocations).draws(self.enabled())
            + self.history_commands(viewport.output.size, input, allocations) + seq![Command::UnbindVertices]
    }

    /// Whether `after` is this chain once a frame was rendered: the passes
    /// are drawn; the resized output and feedback image of every enabled
    /// pass have changed places; and the oldest history image holds the
    /// input and is the most recent.
    pub open spec fn frame_result(
        &self,
        after: &FilterChain,
        count: u64,
        viewport: Viewport,
        input: GlImage,
        direction: i32,
        allocations: Seq<Allocation>,
    ) -> bool {
        let stage = self.frame_stage(count, direction, viewport, input, allocations);
        &&& after.passes@.len() == self.passes@.len()
        &&& forall|i: int|
            0 <= i < self.enabled() ==> (#[trigger] after.passes@[i]).uniform_storage@ == stage.storage(i)
                && self.passes@[i].same_program(&after.passes@[i])
        &&& forall|i: int| self.enabled() <= i < self.passes@.len() ==> #[trigger] after.passes@[i] == self.passes@[i]
        &&& after.common.output_textures@ == stage.outputs_after()
        &&& after.common.feedback_textures@ == stage.feedback
        &&& after.common.history_textures@ == stage.history
        &&& after.common.luts == self.common.luts
        &&& after.common.samplers == self.common.samplers
        &&& after.common.config == self.common.config
        &&& after.output_framebuffers@ == Self::swapped(
            self.sized_outputs(viewport.output.size, input.size, allocations),
            self.sized_feedbacks(viewport.output.size, input.size, allocations),
            self.enabled(),
        )
        &&& after.feedback_framebuffers@ == Self::swapped(
            self.sized_feedbacks(viewport.output.size, input.size, allocations),
            self.sized_outputs(viewport.output.size, input.size, allocations),
            self.enabled(),
        )
        &&& after.history_framebuffers@ == Self::rotated(
            self.history_framebuffers@,
            self.sized_history(viewport.output.size, input, allocations),
        )
    }

    /// Whether every answer names a texture. An answer that names none,
    /// with the image 0, tells of a request that failed after the image to
    /// release was released.
    pub open spec fn all_made(allocations: Seq<Allocation>) -> bool {
        forall|k: int| 0 <= k < allocations.len() ==> (#[trigger] allocations[k]).image != 0
    }

    /// Whether a frame can be rendered with these answers: there is one for
    /// each request, and each names a texture.
    pub open spec fn answered(&self, viewport: Size, input: GlImage, allocations: Seq<Allocation>) -> bool {
        allocations.len() == self.requests(viewport, input).len() && Self::all_made(allocations)
    }

    /// The history images once the oldest was resized in place.
    pub open spec fn resized_history(&self, viewport: Size, input: GlImage, allocations: Seq<Allocation>) -> Seq<
        Gl3Framebuffer,
    > {
        if self.history_framebuffers@.len() == 0 {
            self.history_framebuffers@
        } else {
            self.history_framebuffers@.drop_last().push(self.sized_history(viewport, input, allocations))
        }
    }

    /// Whether `after` is this chain once a frame was given up for want of
    /// allocations: the images whose requests were answered are resized,
    /// those whose requests failed have no image any more, and nothing else
    /// has changed.
    pub open spec fn partly_resized(
        &self,
        after: &FilterChain,
        viewport: Size,
        input: GlImage,
        allocations: Seq<Allocation>,
    ) -> bool {
        &&& after.passes == self.passes
        &&& after.common == self.common
        &&& after.history_framebuffers@ == self.resized_history(viewport, input, allocations)
        &&& after.output_framebuffers@ == self.sized_outputs(viewport, input.size, allocations)
        &&& after.feedback_framebuffers@ == self.sized_feedbacks(viewport, input.size, allocations)
    }

    /// Resizes the oldest history image in place with the backend's answer,
    /// if there is one.
    fn resize_history(&mut self, input: &GlImage, answer: Option<Allocation>)
        requires
            old(self).wf(),
        ensures
            final(self).wf(),
            final(self).passes == old(self).passes,
            final(self).common == old(self).common,
            final(self).output_framebuffers == old(self).output_framebuffers,
            final(self).feedback_framebuffers == old(self).feedback_framebuffers,
            final(self).history_framebuffers@ == (if old(self).history_framebuffers@.len() == 0 {
                old(self).history_framebuffers@
            } else {
                old(self).history_framebuffers@.drop_last().push(
                    old(self).history_framebuffers@.last().resized(input.size, input.format, answer),
                )
            }),
    {
        let length = self.history_framebuffers.len();
        if length == 0 {
            return ;
        }
        let mut back = self.history_framebuffers[length - 1];
        let _ = back.init(input.size, input.format, answer);
        let _ = self.history_framebuffers.pop_back();
        self.history_framebuffers.push_back(back);
    }

    /// Gives a frame up: resizes the images whose requests were answered
    /// and leaves the rest of the chain as it is.
    fn give_up(&mut self, viewport: Size, input: &GlImage, allocations: &[Allocation], answer: Option<Allocation>)
        requires
            old(self).wf(),
            old(self).enabled() > 0,
            answer == (if old(self).history_needs(*input) {
                Self::answer_at(
                    allocations@,
                    old(self).resize_requests(old(self).enabled(), viewport, input.size).len() as int,
                )
            } else {
                None
            }),
        ensures
            final(self).wf(),
            old(self).partly_resized(final(self), viewport, *input, allocations@),
    {
        let _ = self.resize_targets(viewport, input.size, allocations);
        self.resize_history(input, answer);
    }

    /// Whether every answer names a texture.
    fn check_made(allocations: &[Allocation]) -> (made: bool)
        ensures
            made == Self::all_made(allocations@),
    {
        let mut k: usize = 0;
        while k < allocations.len()
            invariant
                k <= allocations@.len(),
                forall|j: int| 0 <= j < k ==> (#[trigger] allocations@[j]).image != 0,
            decreases allocations@.len() - k,
        {
            if allocations[k].image == 0 {
                return false;
            }
            k = k + 1;
        }
        true
    }

    /// Renders one frame: resizes the images of the enabled passes, clears
    /// the feedback images that were made for it, draws the passes, the last
    /// of them into the caller's viewport, lets outputs and feedback change
    /// places, and keeps the input as history. The commands that come back
    /// are for the backend to perform in order.
    ///
    /// `allocations` are the backend's answers to
    /// [`FilterChain::frame_requests`], one for each request, in their order.
    /// With fewer answers than requests, or with an answer that names no
    /// texture, the frame fails, and only the images whose requests were
    /// answered are resized; with more answers than requests it fails and
    /// changes nothing. A chain without enabled passes does nothing at all.
    pub fn frame(
        &mut self,
        count: u64,
        viewport: &Viewport,
        input: &GlImage,
        options: Option<&FrameOptions>,
        allocations: &[Allocation],
    ) -> (result: Result<Vec<Command>, FilterChainError>)
        requires
            old(self).wf(),
        ensures
            final(self).wf(),
            old(self).enabled() == 0 ==> result is Ok && result->Ok_0@ == Seq::<Command>::empty() && *final(self)
                == *old(self),
            old(self).enabled() > 0 && allocations@.len() > old(self).requests(viewport.output.size, *input).len()
                ==> result is Err && result->Err_0 == FilterChainError::AllocationMismatch && *final(self) == *old(
                self,
            ),
            old(self).enabled() > 0 && allocations@.len() <= old(self).requests(viewport.output.size, *input).len()
                && !old(self).answered(viewport.output.size, *input, allocations@) ==> result is Err
                && result->Err_0 == FilterChainError::AllocationMismatch && old(self).partly_resized(
                final(self),
                viewport.output.size,
                *input,
                allocations@,
            ),
            old(self).enabled() > 0 && old(self).answered(viewport.output.size, *input, allocations@) ==> result
                is Ok && result->Ok_0@ == old(self).frame_commands(
                count,
                *viewport,
                *input,
                FrameOptions::clears(options),
                FrameOptions::direction(options),
                allocations@,
            ) && old(self).frame_result(
                final(self),
                count,
                *viewport,
                *input,
                FrameOptions::direction(options),
                allocations@,
            ),
    {
        if self.common.config.passes_enabled == 0 {
            return Ok(Vec::new());
        }
        let requests = self.frame_requests(viewport, input);
        if requests.len() < allocations.len() {
            return Err(FilterChainError::AllocationMismatch);
        }
        let answer = if allocations.len() == requests.len() && self.history_framebuffers.len() > 0
            && self.history_framebuffers[self.history_framebuffers.len() - 1].init_request(
            input.size,
            input.format,
        ).is_some() {
            Some(allocations[allocations.len() - 1])
        } else {
            None
        };
        if allocations.len() < requests.len() || !Self::check_made(allocations) {
            self.give_up(viewport.output.size, input, allocations, answer);
            return Err(FilterChainError::AllocationMismatch);
        }
        let (clear, direction) = match options {
            Some(options) => (options.clear_history, options.frame_direction),
            None => (false, 1),
        };
        Ok(self.render(count, viewport, input, clear, direction, allocations, answer))
    }

    /// Renders a frame whose every request is answered.
    fn render(
        &mut self,
        count: u64,
        viewport: &Viewport,
        input: &GlImage,
        clear: bool,
        direction: i32,
        allocations: &[Allocation],
        answer: Option<Allocation>,
    ) -> (commands: Vec<Command>)
        requires
            old(self).wf(),
            old(self).enabled() > 0,
            allocations@.len() == old(self).requests(viewport.output.size, *input).len(),
            answer == (if old(self).history_needs(*input) {
                Self::answer_at(
                    allocations@,
                    old(self).resize_requests(old(self).enabled(), viewport.output.size, input.size).len() as int,
                )
            } else {
                None
            }),
        ensures
            final(self).wf(),
            commands@ == old(self).frame_commands(count, *viewport, *input, clear, direction, allocations@),
            old(self).frame_result(final(self), count, *viewport, *input, direction, allocations@),
    {
        let ghost stage = self.frame_stage(count, direction, *viewport, *input, allocations@);
        let mut commands: Vec<Command> = Vec::new();
        commands.push(Command::BindVertices);
        if clear {
            let mut cleared = self.clear_history();
            commands.append(&mut cleared);
        }
        let mut fresh = self.resize_targets(viewport.output.size, input.size, allocations);
        commands.append(&mut fresh);
        self.update_views();
        proof {
            assert(self.common.feedback_textures@ =~= stage.feedback);
            assert(self.stage(count, direction, *viewport, *input) == stage);
        }
        let mut draws = self.draw_passes(count, direction, viewport, input);
        commands.append(&mut draws);
        self.swap_targets();
        match self.push_history(input, answer) {
            Ok(mut copied) => {
                commands.append(&mut copied);
            },
            Err(_) => {
                assert(false);
            },
        }
        commands.push(Command::UnbindVertices);
        assert(commands@ =~= old(self).frame_commands(count, *viewport, *input, clear, direction, allocations@));
        commands
    }
}

} // verus!
