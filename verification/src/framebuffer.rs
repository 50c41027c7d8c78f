//! Render targets of the immediate backend, and the commands that the chain
//! hands to it.
//!
//! The library never talks to the driver. Where a render target needs a new
//! backing texture it says so in a [`TextureRequest`]; the caller creates the
//! texture, lets [`TextureRequest::assess`] judge the status the driver
//! reports, and hands the outcome back as an [`Allocation`].

use vstd::prelude::*;
use crate::common::{FilterMode, ImageFormat, Size, WrapMode};
use crate::error::FilterChainError;
use crate::scaling::{bit_length, calc_miplevel, resolve_scale, Scale2D};

verus! {

/// The status of a framebuffer whose attachments are all usable.
pub const FRAMEBUFFER_COMPLETE: u32 = 0x8CD5;

/// The status of a framebuffer whose attachment has a format that the
/// driver cannot render to.
pub const FRAMEBUFFER_UNSUPPORTED: u32 = 0x8CDD;

/// A texture of the backend with what the chain knows of it. The handle 0
/// names no texture.
#[derive(Clone, Copy, Debug, PartialEq, Eq, Structural)]
pub struct GlImage {
    pub handle: u32,
    pub format: ImageFormat,
    pub size: Size,
}

/// A texture together with how it is to be sampled.
#[derive(Clone, Copy, Debug, PartialEq, Eq, Structural)]
pub struct Texture {
    pub image: GlImage,
    pub filter: FilterMode,
    pub mip_filter: FilterMode,
    pub wrap_mode: WrapMode,
}

impl Texture {
    /// The binding for a semantic that has no image behind it.
    pub open spec fn absent() -> Texture {
        Texture {
            image: GlImage { handle: 0, format: ImageFormat::Unknown, size: Size { width: 0, height: 0 } },
            filter: FilterMode::Nearest,
            mip_filter: FilterMode::Nearest,
            wrap_mode: WrapMode::ClampToBorder,
        }
    }

    /// A texture that names no image.
    pub fn none() -> (texture: Texture)
        ensures
            texture == Texture::absent(),
    {
        Texture {
            image: GlImage { handle: 0, format: ImageFormat::Unknown, size: Size { width: 0, height: 0 } },
            filter: FilterMode::Nearest,
            mip_filter: FilterMode::Nearest,
            wrap_mode: WrapMode::ClampToBorder,
        }
    }
}

/// Which of the two pre-built quads a draw uses.
#[derive(Clone, Copy, Debug, PartialEq, Eq, Structural)]
pub enum QuadType {
    /// Corners (-1,-1)..(1,1), for passes that render into their own target.
    Offscreen,
    /// Corners (0,0)..(1,1), for the pass that renders into the viewport.
    Final,
}

/// One step for the backend to perform. A frame is a sequence of these, to
/// be performed in order.
#[derive(Clone, Copy, Debug, PartialEq, Eq, Structural)]
pub enum Command {
    /// Make the quads' vertex data current.
    BindVertices,
    /// Undo `BindVertices`.
    UnbindVertices,
    /// Make the framebuffer `handle` the render target; 0 is the default
    /// framebuffer, that is: no render target of the chain.
    BindFramebuffer { handle: u32 },
    /// Clear the bound render target to opaque black, every channel writable.
    Clear,
    /// Copy `size` texels of the texture `source` into the texture `target`,
    /// texel for texel, through the bound framebuffer.
    CopyImage { source: u32, target: u32, size: Size },
    /// Make the program of pass `pass` current.
    UseProgram { pass: usize },
    /// Bind `texture` with its sampler state to the binding point `binding`.
    BindTexture { binding: u32, texture: Texture },
    /// Copy the uniform buffer block of pass `pass` into `buffer`, the
    /// buffer of its ring that this frame uses, and bind that buffer to the
    /// binding point `binding`.
    UploadUniforms { pass: usize, buffer: u32, binding: u32 },
    /// Push the push-constant block of pass `pass`.
    PushConstants { pass: usize },
    /// Set the rectangle that the next draw covers.
    SetViewport { x: i32, y: i32, size: Size },
    /// Draw the given quad.
    DrawQuad { quad: QuadType },
    /// Fill the mip chain of the texture `image` from its first level.
    GenerateMipmaps { image: u32 },
}

/// The framebuffer that is bound after `commands` have run, when `bound` was
/// bound before them.
pub open spec fn bound_after(commands: Seq<Command>, bound: u32) -> u32
    decreases commands.len(),
{
    if commands.len() == 0 {
        bound
    } else {
        match commands.last() {
            Command::BindFramebuffer { handle } => handle,
            _ => bound_after(commands.drop_last(), bound),
        }
    }
}

/// What the backend is asked to create for a render target.
#[derive(Clone, Copy, Debug, PartialEq, Eq, Structural)]
pub struct TextureRequest {
    /// The framebuffer object to attach the texture to; 0 asks for a new one.
    pub framebuffer: u32,
    /// The texture to detach and delete first; 0 if there is none.
    pub release: u32,
    /// The size of the new texture; neither side is 0.
    pub size: Size,
    /// The format of the new texture; never `Unknown`.
    pub format: ImageFormat,
    /// The number of mip levels to allocate; at least 1.
    pub levels: u32,
}

/// What to do after the driver reported the status of a framebuffer that a
/// request was performed on.
#[derive(Clone, Copy, Debug, PartialEq, Eq, Structural)]
pub enum Verdict {
    /// The texture is in place.
    Accept,
    /// Perform this request in place of the one that failed.
    Retry(TextureRequest),
    /// Give up with this error.
    Reject(FilterChainError),
}

impl TextureRequest {
    /// The verdict on a status: a complete framebuffer is accepted; a format
    /// that the driver cannot render to is replaced by linear RGBA8, once,
    /// and the texture that was made in vain is released by the retry;
    /// everything else is a failure that keeps the status.
    pub open spec fn verdict(self, made: Allocation, status: u32) -> Verdict {
        if status == FRAMEBUFFER_COMPLETE {
            Verdict::Accept
        } else if status == FRAMEBUFFER_UNSUPPORTED && self.format != ImageFormat::R8G8B8A8Unorm {
            Verdict::Retry(
                TextureRequest {
                    framebuffer: made.framebuffer,
                    release: made.image,
                    size: self.size,
                    format: ImageFormat::R8G8B8A8Unorm,
                    levels: self.levels,
                },
            )
        } else {
            Verdict::Reject(FilterChainError::FramebufferInit(status))
        }
    }

    /// Judges the status that the driver reported after this request was
    /// performed and `made` came of it.
    pub fn assess(&self, made: &Allocation, status: u32) -> (verdict: Verdict)
        ensures
            verdict == self.verdict(*made, status),
    {
        if status == FRAMEBUFFER_COMPLETE {
            Verdict::Accept
        } else if status == FRAMEBUFFER_UNSUPPORTED && self.format != ImageFormat::R8G8B8A8Unorm {
            Verdict::Retry(
                TextureRequest {
                    framebuffer: made.framebuffer,
                    release: made.image,
                    size: self.size,
                    format: ImageFormat::R8G8B8A8Unorm,
                    levels: self.levels,
                },
            )
        } else {
            Verdict::Reject(FilterChainError::FramebufferInit(status))
        }
    }
}

/// The backend's answer to a request that it could perform.
#[derive(Clone, Copy, Debug, PartialEq, Eq, Structural)]
pub struct Allocation {
    /// The framebuffer object that the texture is attached to.
    pub framebuffer: u32,
    /// The new texture.
    pub image: u32,
    /// The format that the texture was created with: the one requested, or
    /// the one that a retry replaced it by.
    pub format: ImageFormat,
}

/// `size` with empty sides widened to one texel.
pub open spec fn at_least_one(size: Size) -> Size {
    Size {
        width: if size.width == 0 { 1 } else { size.width },
        height: if size.height == 0 { 1 } else { size.height },
    }
}

/// The number of mip levels of an image of `size` that may hold at most
/// `max_levels`: the full chain's length, cut to `max_levels`, at least 1.
pub open spec fn mip_levels_for(size: Size, max_levels: u32) -> nat {
    let full = bit_length(size.longest());
    let cut = if full > max_levels { max_levels as nat } else { full };
    if cut == 0 { 1 } else { cut }
}

/// The upper bound on mip levels that goes with a pass's mipmap flag.
pub open spec fn levels_limit(mipmap: bool) -> u32 {
    if mipmap { u32::MAX } else { 1 }
}

/// A render target that the chain owns, or one of the caller's that it
/// renders into.
#[derive(Clone, Copy, Debug, PartialEq, Eq, Structural)]
pub struct Gl3Framebuffer {
    /// The backing texture; 0 while nothing is allocated.
    pub image: u32,
    /// The framebuffer object; 0 while nothing is allocated.
    pub handle: u32,
    pub size: Size,
    /// The format of the backing texture.
    pub format: ImageFormat,
    /// The format that the backing texture was asked for in, which the
    /// backend may have replaced by one that it can render to.
    pub requested: ImageFormat,
    /// The most mip levels that the target may ever have.
    pub max_levels: u32,
    /// The mip levels of the backing texture.
    pub mip_levels: u32,
    /// Whether the target belongs to the caller; such a target is never
    /// reallocated.
    pub is_raw: bool,
}

impl Gl3Framebuffer {
    /// What holds of every render target that the chain owns: no empty
    /// side, at least one mip level but no more than the larger of the
    /// permitted and the full chain, and formats once it has an image.
    pub open spec fn wf(&self) -> bool {
        !self.is_raw ==> {
            &&& self.size.width >= 1
            &&& self.size.height >= 1
            &&& self.mip_levels >= 1
            &&& (self.image != 0 ==> self.requested != ImageFormat::Unknown && self.format != ImageFormat::Unknown)
            &&& (self.mip_levels <= self.max_levels || self.mip_levels <= bit_length(self.size.longest()))
        }
    }

    /// Whether `format` is a format of this target: the one its texture
    /// has, or the one that was asked for when the texture was made and
    /// that the backend replaced.
    pub open spec fn has_format(&self, format: ImageFormat) -> bool {
        format.resolved() == self.format || format.resolved() == self.requested
    }

    /// Whether the target has to be reallocated to hold an image of `size`
    /// and `format`: where it has no texture yet, or another size, or
    /// another format. A target of the caller's never has to.
    pub open spec fn needs_init(&self, size: Size, format: ImageFormat) -> bool {
        !self.is_raw && (self.image == 0 || self.size != at_least_one(size) || !self.has_format(format))
    }

    /// The request that reallocates the target for `size` and `format`,
    /// with as many mip levels as the target permits.
    pub open spec fn request_for(&self, size: Size, format: ImageFormat) -> TextureRequest {
        TextureRequest {
            framebuffer: self.handle,
            release: self.image,
            size: at_least_one(size),
            format: format.resolved(),
            levels: mip_levels_for(at_least_one(size), self.max_levels) as u32,
        }
    }

    /// The target after `allocation` answered the request for `size` and
    /// `format`.
    pub open spec fn installed(&self, size: Size, format: ImageFormat, allocation: Allocation) -> Gl3Framebuffer {
        Gl3Framebuffer {
            image: allocation.image,
            handle: allocation.framebuffer,
            size: at_least_one(size),
            format: allocation.format.resolved(),
            requested: format.resolved(),
            max_levels: self.max_levels,
            mip_levels: mip_levels_for(at_least_one(size), self.max_levels) as u32,
            is_raw: false,
        }
    }

    /// The target as it is after a resize to `size` and `format` that was
    /// handed `allocation`: reallocated where that was needed, else as before.
    pub open spec fn resized(&self, size: Size, format: ImageFormat, allocation: Option<Allocation>) -> Gl3Framebuffer {
        if self.needs_init(size, format) && allocation is Some {
            self.installed(size, format, allocation->0)
        } else {
            *self
        }
    }

    /// The view of this target as a sampled input.
    pub open spec fn sampled(&self, filter: FilterMode, wrap_mode: WrapMode) -> Texture {
        Texture {
            image: GlImage { handle: self.image, format: self.format, size: self.size },
            filter,
            mip_filter: filter,
            wrap_mode,
        }
    }

    /// A placeholder of one texel with nothing allocated behind it.
    pub fn new(max_levels: u32) -> (framebuffer: Gl3Framebuffer)
        ensures
            framebuffer == (Gl3Framebuffer {
                image: 0,
                handle: 0,
                size: Size { width: 1, height: 1 },
                format: ImageFormat::Unknown,
                requested: ImageFormat::Unknown,
                max_levels,
                mip_levels: 1,
                is_raw: false,
            }),
            framebuffer.wf(),
    {
        proof {
            reveal_with_fuel(bit_length, 2);
        }
        Gl3Framebuffer {
            image: 0,
            handle: 0,
            size: Size { width: 1, height: 1 },
            format: ImageFormat::Unknown,
            requested: ImageFormat::Unknown,
            max_levels,
            mip_levels: 1,
            is_raw: false,
        }
    }

    /// Wraps a render target of the caller's.
    pub fn new_from_raw(texture: u32, handle: u32, format: ImageFormat, size: Size, miplevels: u32) -> (framebuffer:
        Gl3Framebuffer)
        ensures
            framebuffer == (Gl3Framebuffer {
                image: texture,
                handle,
                size,
                format,
                requested: format,
                max_levels: miplevels,
                mip_levels: miplevels,
                is_raw: true,
            }),
            framebuffer.wf(),
    {
        Gl3Framebuffer {
            image: texture,
            handle,
            size,
            format,
            requested: format,
            max_levels: miplevels,
            mip_levels: miplevels,
            is_raw: true,
        }
    }

    /// The framebuffer object; 0 while nothing is allocated.
    pub fn handle(&self) -> (handle: u32)
        ensures
            handle == self.handle,
    {
        self.handle
    }

    /// The size of the backing texture.
    pub fn size(&self) -> (size: Size)
        ensures
            size == self.size,
    {
        self.size
    }

    /// The backing texture; 0 while nothing is allocated.
    pub fn image(&self) -> (image: u32)
        ensures
            image == self.image,
    {
        self.image
    }

    /// The format of the backing texture.
    pub fn format(&self) -> (format: ImageFormat)
        ensures
            format == self.format,
    {
        self.format
    }

    /// What is to be deleted when the target is dropped: the framebuffer
    /// object, then the texture, each unless it is 0. Nothing of a target
    /// of the caller's is deleted.
    pub fn release(&self) -> (release: (Option<u32>, Option<u32>))
        ensures
            release.0 == (if !self.is_raw && self.handle != 0 {
                Some(self.handle)
            } else {
                None
            }),
            release.1 == (if !self.is_raw && self.image != 0 {
                Some(self.image)
            } else {
                None
            }),
    {
        if self.is_raw {
            (None, None)
        } else {
            (
                if self.handle != 0 { Some(self.handle) } else { None },
                if self.image != 0 { Some(self.image) } else { None },
            )
        }
    }

    /// Views the target as a sampled input; the target keeps its image.
    pub fn as_texture(&self, filter: FilterMode, wrap_mode: WrapMode) -> (texture: Texture)
        ensures
            texture == self.sampled(filter, wrap_mode),
    {
        Texture {
            image: GlImage { handle: self.image, format: self.format, size: self.size },
            filter,
            mip_filter: filter,
            wrap_mode,
        }
    }

    /// What has to be allocated before [`Gl3Framebuffer::init`] is called with
    /// the same size and format: nothing where the target already holds such
    /// an image, or belongs to the caller.
    pub fn init_request(&self, size: Size, format: ImageFormat) -> (request: Option<TextureRequest>)
        ensures
            request == (if self.needs_init(size, format) {
                Some(self.request_for(size, format))
            } else {
                None
            }),
            request is Some ==> request->0.size.width >= 1 && request->0.size.height >= 1 && request->0.levels >= 1
                && request->0.format != ImageFormat::Unknown,
    {
        let clamped = widen(size);
        let resolved = format.or_default();
        if self.is_raw || (self.image != 0 && self.size == clamped && (self.format == resolved || self.requested
            == resolved)) {
            return None;
        }
        Some(
            TextureRequest {
                framebuffer: self.handle,
                release: self.image,
                size: clamped,
                format: resolved,
                levels: levels_for(clamped, self.max_levels),
            },
        )
    }

    /// Resizes the target to `size` and `format`. Where that takes a new
    /// texture, `allocation` is the backend's answer to
    /// [`Gl3Framebuffer::init_request`]; where it takes none, the target is
    /// left as it is, handles included. The number of mip levels that the
    /// target permits stays.
    pub fn init(&mut self, size: Size, format: ImageFormat, allocation: Option<Allocation>) -> (result: Result<
        (),
        FilterChainError,
    >)
        requires
            old(self).wf(),
        ensures
            final(self).wf(),
            final(self).max_levels == old(self).max_levels,
            (old(self).needs_init(size, format) <==> allocation is Some) ==> result is Ok
                && *final(self) == old(self).resized(size, format, allocation),
            !(old(self).needs_init(size, format) <==> allocation is Some) ==> result == Err::<(), FilterChainError>(
                FilterChainError::AllocationMismatch,
            ) && *final(self) == *old(self),
    {
        let request = self.init_request(size, format);
        match (request, allocation) {
            (None, None) => Ok(()),
            (Some(request), Some(allocation)) => {
                self.image = allocation.image;
                self.handle = allocation.framebuffer;
                self.size = request.size;
                self.format = allocation.format.or_default();
                self.requested = request.format;
                self.mip_levels = request.levels;
                Ok(())
            },
            _ => Err(FilterChainError::AllocationMismatch),
        }
    }

    /// The request that [`Gl3Framebuffer::scale`] has to be answered with:
    /// that for the size that `scaling` resolves to.
    pub fn scale_request(&self, scaling: Scale2D, format: ImageFormat, viewport: Size, original: Size, source: Size) -> (request:
        Option<TextureRequest>)
        ensures
            request == (if self.needs_init(scaling.resolved(source, viewport, original), format) {
                Some(self.request_for(scaling.resolved(source, viewport, original), format))
            } else {
                None
            }),
    {
        let size = resolve_scale(scaling, source, viewport, original);
        self.init_request(size, format)
    }

    /// Resizes the target to what `scaling` resolves to and returns that
    /// size. A target of the caller's keeps its size, which is returned.
    pub fn scale(
        &mut self,
        scaling: Scale2D,
        format: ImageFormat,
        viewport: Size,
        original: Size,
        source: Size,
        allocation: Option<Allocation>,
    ) -> (result: Result<Size, FilterChainError>)
        requires
            old(self).wf(),
        ensures
            final(self).wf(),
            (old(self).needs_init(scaling.resolved(source, viewport, original), format) <==> allocation is Some)
                ==> *final(self) == old(self).resized(scaling.resolved(source, viewport, original), format, allocation)
                && result == Ok::<Size, FilterChainError>(final(self).size),
            !(old(self).needs_init(scaling.resolved(source, viewport, original), format) <==> allocation is Some)
                ==> result == Err::<Size, FilterChainError>(FilterChainError::AllocationMismatch) && *final(self)
                == *old(self),
            result is Ok && !old(self).is_raw ==> final(self).size == scaling.resolved(source, viewport, original),
    {
        let size = resolve_scale(scaling, source, viewport, original);
        match self.init(size, format, allocation) {
            Ok(()) => Ok(self.size),
            Err(error) => Err(error),
        }
    }

    /// The commands that clear the target. With `rebind` the target is bound
    /// first and the default framebuffer afterwards; without, whatever is
    /// bound is cleared.
    pub fn clear(&self, rebind: bool) -> (commands: Vec<Command>)
        ensures
            commands@ == self.clear_commands(rebind),
    {
        let mut commands: Vec<Command> = Vec::new();
        if rebind {
            commands.push(Command::BindFramebuffer { handle: self.handle });
        }
        commands.push(Command::Clear);
        if rebind {
            commands.push(Command::BindFramebuffer { handle: 0 });
        }
        assert(commands@ =~= self.clear_commands(rebind));
        commands
    }

    pub open spec fn clear_commands(&self, rebind: bool) -> Seq<Command> {
        if rebind {
            seq![Command::BindFramebuffer { handle: self.handle }, Command::Clear, Command::BindFramebuffer { handle: 0 }]
        } else {
            seq![Command::Clear]
        }
    }

    /// The commands that copy `image` into this target once it has the
    /// image's size.
    pub open spec fn copy_commands(&self, image: GlImage) -> Seq<Command> {
        seq![
            Command::BindFramebuffer { handle: self.handle },
            Command::CopyImage { source: image.handle, target: self.image, size: self.size },
            Command::BindFramebuffer { handle: 0 },
        ]
    }

    /// What has to be allocated before [`Gl3Framebuffer::copy_from`] is called
    /// with the same image: nothing where size and format already agree.
    pub fn copy_request(&self, image: &GlImage) -> (request: Option<TextureRequest>)
        ensures
            request == (if self.needs_init(image.size, image.format) {
                Some(self.request_for(image.size, image.format))
            } else {
                None
            }),
    {
        self.init_request(image.size, image.format)
    }

    /// Makes the target a copy of `image`: resizes it to the image's size and
    /// format where they differ, then returns the commands that copy the
    /// texels.
    pub fn copy_from(&mut self, image: &GlImage, allocation: Option<Allocation>) -> (result: Result<
        Vec<Command>,
        FilterChainError,
    >)
        requires
            old(self).wf(),
        ensures
            final(self).wf(),
            (old(self).needs_init(image.size, image.format) <==> allocation is Some) ==> result is Ok && *final(self)
                == old(self).resized(image.size, image.format, allocation)
                && result->Ok_0@ == final(self).copy_commands(*image),
            !(old(self).needs_init(image.size, image.format) <==> allocation is Some) ==> result == Err::<
                Vec<Command>,
                FilterChainError,
            >(FilterChainError::AllocationMismatch) && *final(self) == *old(self),
    {
        match self.init(image.size, image.format, allocation) {
            Ok(()) => {
                let mut commands: Vec<Command> = Vec::new();
                commands.push(Command::BindFramebuffer { handle: self.handle });
                commands.push(Command::CopyImage { source: image.handle, target: self.image, size: self.size });
                commands.push(Command::BindFramebuffer { handle: 0 });
                assert(commands@ =~= self.copy_commands(*image));
                Ok(commands)
            },
            Err(error) => Err(error),
        }
    }
}

/// A target that was resized to a size and format asks for nothing when it
/// is resized to them again, and stays as it is, handles included.
pub proof fn lemma_resize_is_idempotent(
    target: Gl3Framebuffer,
    size: Size,
    format: ImageFormat,
    allocation: Option<Allocation>,
)
    requires
        target.needs_init(size, format) ==> allocation is Some && allocation->0.image != 0,
    ensures
        !target.resized(size, format, allocation).needs_init(size, format),
        target.resized(size, format, allocation).resized(size, format, None) == target.resized(
            size,
            format,
            allocation,
        ),
{
}

/// A target with a texture asks for nothing when it is resized to the size
/// that it has and to the format of its texture, or to the format that was
/// asked for when the texture was made: it stays as it is, handles
/// included.
pub proof fn lemma_current_size_needs_nothing(target: Gl3Framebuffer)
    requires
        target.wf(),
        target.image != 0,
    ensures
        !target.needs_init(target.size, target.format),
        !target.needs_init(target.size, target.requested),
        target.resized(target.size, target.format, None) == target,
        target.resized(target.size, target.requested, None) == target,
{
}

/// `size` with empty sides widened to one texel.
fn widen(size: Size) -> (widened: Size)
    ensures
        widened == at_least_one(size),
{
    Size {
        width: if size.width == 0 { 1 } else { size.width },
        height: if size.height == 0 { 1 } else { size.height },
    }
}

/// The number of mip levels to allocate.
fn levels_for(size: Size, max_levels: u32) -> (levels: u32)
    requires
        size.width >= 1,
        size.height >= 1,
    ensures
        levels == mip_levels_for(size, max_levels),
        levels >= 1,
        levels <= max_levels || levels <= bit_length(size.longest()),
{
    let mut levels = calc_miplevel(size);
    if levels > max_levels {
        levels = max_levels;
    }
    if levels == 0 {
        levels = 1;
    }
    levels
}

} // verus!
