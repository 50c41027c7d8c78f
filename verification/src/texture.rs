//! Images of the explicit backend: what the chain knows of them, and the
//! commands, barriers included, that its operations record.

use vstd::prelude::*;
use crate::common::{FilterMode, ImageFormat, Size, WrapMode};
use crate::error::FilterChainError;
use crate::framebuffer::{at_least_one, levels_limit, mip_levels_for};
use crate::scaling::{calc_miplevel, mip_extent, resolve_scale, scale_mipmap, Scale2D};

verus! {

/// The level count that stands for "every level from the base on".
pub const REMAINING_MIP_LEVELS: u32 = 0xFFFF_FFFF;

/// What a level of an image is laid out for.
#[derive(Clone, Copy, Debug, PartialEq, Eq, Structural)]
pub enum ImageLayout {
    Undefined,
    General,
    ColorAttachmentOptimal,
    ShaderReadOnlyOptimal,
    TransferSrcOptimal,
    TransferDstOptimal,
}

/// A kind of memory access that a barrier orders.
#[derive(Clone, Copy, Debug, PartialEq, Eq, Structural)]
pub enum Access {
    /// No access at all.
    Empty,
    ShaderRead,
    ColorAttachmentWrite,
    TransferRead,
    TransferWrite,
}

/// A stage of the pipeline that a barrier orders.
#[derive(Clone, Copy, Debug, PartialEq, Eq, Structural)]
pub enum PipelineStage {
    TopOfPipe,
    FragmentShader,
    AllGraphics,
    Transfer,
}

/// A layout transition of a run of mip levels.
#[derive(Clone, Copy, Debug, PartialEq, Eq, Structural)]
pub struct ImageBarrier {
    pub src_access: Access,
    pub dst_access: Access,
    pub old_layout: ImageLayout,
    pub new_layout: ImageLayout,
    pub base_mip_level: u32,
    /// The number of levels, or [`REMAINING_MIP_LEVELS`].
    pub level_count: u32,
}

/// One command that an operation on an image records.
#[derive(Clone, Copy, Debug, PartialEq, Eq, Structural)]
pub enum ImageCommand {
    /// A pipeline barrier with one or two image barriers, which cover
    /// different levels.
    PipelineBarrier { src_stage: PipelineStage, dst_stage: PipelineStage, first: ImageBarrier, second: Option<ImageBarrier> },
    /// Downsample level `src_level` into level `dst_level` with a linear
    /// filter.
    Blit { src_level: u32, src_size: Size, dst_level: u32, dst_size: Size },
    /// Copy `extent` texels of the first level of `source` into the first
    /// level of this image.
    Copy { source: u64, source_layout: ImageLayout, extent: Size },
    /// Clear the first level to opaque black.
    ClearColor,
}

/// An image of the backend with its size and format.
#[derive(Clone, Copy, Debug, PartialEq, Eq, Structural)]
pub struct VulkanImage {
    pub size: Size,
    pub image: u64,
    pub format: ImageFormat,
}

/// An image together with how it is to be sampled.
#[derive(Clone, Copy, Debug, PartialEq, Eq, Structural)]
pub struct InputImage {
    pub image: VulkanImage,
    pub image_view: u64,
    pub wrap_mode: WrapMode,
    pub filter_mode: FilterMode,
    pub mip_filter: FilterMode,
}

/// The layout that a resized image is moved to, and what waits on it.
#[derive(Clone, Copy, Debug, PartialEq, Eq, Structural)]
pub struct OwnedImageLayout {
    pub dst_layout: ImageLayout,
    pub dst_access: Access,
    pub src_stage: PipelineStage,
    pub dst_stage: PipelineStage,
}

/// What the backend is asked to create for an image: the image itself, its
/// memory, and a view of all its levels.
#[derive(Clone, Copy, Debug, PartialEq, Eq, Structural)]
pub struct ImageRequest {
    /// The size of the image; neither side is 0.
    pub size: Size,
    /// The format of image and view; never `Unknown`.
    pub format: ImageFormat,
    /// The number of mip levels; at least 1.
    pub mip_levels: u32,
}

/// The handles of what the backend created for an [`ImageRequest`].
#[derive(Clone, Copy, Debug, PartialEq, Eq, Structural)]
pub struct ImageHandles {
    pub image: u64,
    pub memory: u64,
    pub image_view: u64,
}

/// What is to be destroyed when an image is dropped.
#[derive(Clone, Copy, Debug, PartialEq, Eq, Structural)]
pub struct Release {
    pub image_view: Option<u64>,
    pub image: Option<u64>,
}

/// An image that the chain owns.
#[derive(Clone, Copy, Debug, PartialEq, Eq, Structural)]
pub struct OwnedImage {
    pub image_view: u64,
    pub image: VulkanImage,
    pub memory: u64,
    pub max_miplevels: u32,
    pub levels: u32,
}

/// Whether a barrier moves level `level` of an image.
pub open spec fn covers(barrier: ImageBarrier, level: int) -> bool {
    barrier.base_mip_level <= level && (barrier.level_count == REMAINING_MIP_LEVELS || level < barrier.base_mip_level
        + barrier.level_count)
}

/// Whether a barrier fits an image whose levels are laid out as `layouts`:
/// it names levels that exist, at least one, and every level that it moves
/// is in the layout that it names as old, unless it discards the contents.
pub open spec fn barrier_fits(layouts: Seq<ImageLayout>, barrier: ImageBarrier) -> bool {
    &&& barrier.base_mip_level < layouts.len()
    &&& barrier.level_count >= 1
    &&& barrier.level_count == REMAINING_MIP_LEVELS || barrier.base_mip_level + barrier.level_count <= layouts.len()
    &&& forall|level: int|
        0 <= level < layouts.len() && covers(barrier, level) ==> barrier.old_layout == ImageLayout::Undefined
            || #[trigger] layouts[level] == barrier.old_layout
}

/// The layouts of the levels after a barrier.
pub open spec fn moved(layouts: Seq<ImageLayout>, barrier: ImageBarrier) -> Seq<ImageLayout> {
    Seq::new(
        layouts.len(),
        |level: int|
            if covers(barrier, level) {
                barrier.new_layout
            } else {
                layouts[level]
            },
    )
}

/// Whether a command may be recorded for an image whose levels are laid
/// out as `layouts`: barriers fit, a blit reads a level laid out as a
/// transfer source and writes one laid out as a transfer destination, and
/// a copy or a clear writes a first level laid out as a transfer
/// destination.
pub open spec fn command_fits(layouts: Seq<ImageLayout>, command: ImageCommand) -> bool {
    match command {
        ImageCommand::PipelineBarrier { first, second, .. } => barrier_fits(layouts, first) && (match second {
            Some(second) => barrier_fits(layouts, second) && forall|level: int|
                !(covers(first, level) && covers(second, level)),
            None => true,
        }),
        ImageCommand::Blit { src_level, dst_level, .. } => src_level < layouts.len() && dst_level < layouts.len()
            && layouts[src_level as int] == ImageLayout::TransferSrcOptimal && layouts[dst_level as int]
            == ImageLayout::TransferDstOptimal,
        ImageCommand::Copy { .. } => layouts.len() >= 1 && layouts[0] == ImageLayout::TransferDstOptimal,
        ImageCommand::ClearColor => layouts.len() >= 1 && layouts[0] == ImageLayout::TransferDstOptimal,
    }
}

/// The layouts of the levels after a command.
pub open spec fn after_command(layouts: Seq<ImageLayout>, command: ImageCommand) -> Seq<ImageLayout> {
    match command {
        ImageCommand::PipelineBarrier { first, second, .. } => match second {
            Some(second) => moved(moved(layouts, first), second),
            None => moved(layouts, first),
        },
        _ => layouts,
    }
}

/// Whether each of `commands` may be recorded in its turn.
pub open spec fn commands_fit(layouts: Seq<ImageLayout>, commands: Seq<ImageCommand>) -> bool
    decreases commands.len(),
{
    if commands.len() == 0 {
        true
    } else {
        commands_fit(layouts, commands.drop_last()) && command_fits(
            after_commands(layouts, commands.drop_last()),
            commands.last(),
        )
    }
}

/// The layouts of the levels after `commands`.
pub open spec fn after_commands(layouts: Seq<ImageLayout>, commands: Seq<ImageCommand>) -> Seq<ImageLayout>
    decreases commands.len(),
{
    if commands.len() == 0 {
        layouts
    } else {
        after_command(after_commands(layouts, commands.drop_last()), commands.last())
    }
}

/// A barrier over `count` levels from `base` on.
pub open spec fn transition(
    base: u32,
    count: u32,
    old_layout: ImageLayout,
    new_layout: ImageLayout,
    src_access: Access,
    dst_access: Access,
) -> ImageBarrier {
    ImageBarrier { src_access, dst_access, old_layout, new_layout, base_mip_level: base, level_count: count }
}

/// The barrier that takes a whole image from `old_layout` to a transfer
/// destination.
pub open spec fn to_transfer_dst(src_stage: PipelineStage) -> ImageCommand {
    ImageCommand::PipelineBarrier {
        src_stage,
        dst_stage: PipelineStage::Transfer,
        first: transition(
            0,
            REMAINING_MIP_LEVELS,
            ImageLayout::Undefined,
            ImageLayout::TransferDstOptimal,
            Access::Empty,
            Access::TransferWrite,
        ),
        second: None,
    }
}

/// The barrier that takes a whole image from a transfer destination to
/// where shaders read it.
pub open spec fn to_shader_read() -> ImageCommand {
    ImageCommand::PipelineBarrier {
        src_stage: PipelineStage::Transfer,
        dst_stage: PipelineStage::FragmentShader,
        first: transition(
            0,
            REMAINING_MIP_LEVELS,
            ImageLayout::TransferDstOptimal,
            ImageLayout::ShaderReadOnlyOptimal,
            Access::TransferWrite,
            Access::ShaderRead,
        ),
        second: None,
    }
}

/// The two commands that fill level `level` from the level above it: the
/// barrier that makes that level a transfer source, which the first level
/// already is, and the blit.
pub open spec fn level_commands(size: Size, level: u32) -> Seq<ImageCommand> {
    let blit = ImageCommand::Blit {
        src_level: (level - 1) as u32,
        src_size: Size {
            width: mip_extent(size.width as nat, (level - 1) as nat) as u32,
            height: mip_extent(size.height as nat, (level - 1) as nat) as u32,
        },
        dst_level: level,
        dst_size: Size {
            width: mip_extent(size.width as nat, level as nat) as u32,
            height: mip_extent(size.height as nat, level as nat) as u32,
        },
    };
    if level > 1 {
        seq![
            ImageCommand::PipelineBarrier {
                src_stage: PipelineStage::Transfer,
                dst_stage: PipelineStage::Transfer,
                first: transition(
                    (level - 1) as u32,
                    1,
                    ImageLayout::TransferDstOptimal,
                    ImageLayout::TransferSrcOptimal,
                    Access::TransferWrite,
                    Access::TransferRead,
                ),
                second: None,
            },
            blit,
        ]
    } else {
        seq![blit]
    }
}

/// The commands that fill the levels `1..upto`, one after the other.
pub open spec fn chain_commands(size: Size, upto: u32) -> Seq<ImageCommand>
    decreases upto,
{
    if upto <= 1 {
        Seq::<ImageCommand>::empty()
    } else {
        chain_commands(size, (upto - 1) as u32) + level_commands(size, (upto - 1) as u32)
    }
}

/// The barrier that opens mipmap generation: the first level, just
/// rendered to, becomes a transfer source; the levels below it, whose
/// contents are of no use, become transfer destinations.
pub open spec fn open_chain(levels: u32) -> ImageCommand {
    ImageCommand::PipelineBarrier {
        src_stage: PipelineStage::AllGraphics,
        dst_stage: PipelineStage::Transfer,
        first: transition(
            0,
            1,
            ImageLayout::ColorAttachmentOptimal,
            ImageLayout::TransferSrcOptimal,
            Access::ColorAttachmentWrite,
            Access::TransferRead,
        ),
        second: if levels > 1 {
            Some(
                transition(
                    1,
                    REMAINING_MIP_LEVELS,
                    ImageLayout::Undefined,
                    ImageLayout::TransferDstOptimal,
                    Access::Empty,
                    Access::TransferWrite,
                ),
            )
        } else {
            None
        },
    }
}

/// The barrier that closes mipmap generation: every level moves to where
/// shaders read it, the last from a transfer destination, the others from
/// a transfer source.
pub open spec fn close_chain(levels: u32) -> ImageCommand {
    if levels > 1 {
        ImageCommand::PipelineBarrier {
            src_stage: PipelineStage::Transfer,
            dst_stage: PipelineStage::FragmentShader,
            first: transition(
                0,
                (levels - 1) as u32,
                ImageLayout::TransferSrcOptimal,
                ImageLayout::ShaderReadOnlyOptimal,
                Access::TransferRead,
                Access::ShaderRead,
            ),
            second: Some(
                transition(
                    (levels - 1) as u32,
                    1,
                    ImageLayout::TransferDstOptimal,
                    ImageLayout::ShaderReadOnlyOptimal,
                    Access::TransferWrite,
                    Access::ShaderRead,
                ),
            ),
        }
    } else {
        ImageCommand::PipelineBarrier {
            src_stage: PipelineStage::Transfer,
            dst_stage: PipelineStage::FragmentShader,
            first: transition(
                0,
                1,
                ImageLayout::TransferSrcOptimal,
                ImageLayout::ShaderReadOnlyOptimal,
                Access::TransferRead,
                Access::ShaderRead,
            ),
            second: None,
        }
    }
}

impl OwnedImage {
    /// What holds of every image: no empty side, a format, and at least one
    /// mip level but no more than a full chain has.
    pub open spec fn wf(&self) -> bool {
        &&& self.image.size.width >= 1
        &&& self.image.size.height >= 1
        &&& self.image.format != ImageFormat::Unknown
        &&& 1 <= self.levels <= 32
        &&& self.levels == mip_levels_for(self.image.size, self.max_miplevels)
    }

    /// What the backend has to create for an image of `size` and `format`
    /// that may hold `max_miplevels` levels.
    pub open spec fn request_for(size: Size, format: ImageFormat, max_miplevels: u32) -> ImageRequest {
        ImageRequest {
            size: at_least_one(size),
            format: format.resolved(),
            mip_levels: mip_levels_for(at_least_one(size), max_miplevels) as u32,
        }
    }

    /// The image made of what the backend created for a request.
    pub open spec fn created(request: ImageRequest, max_miplevels: u32, handles: ImageHandles) -> OwnedImage {
        OwnedImage {
            image_view: handles.image_view,
            image: VulkanImage { size: request.size, image: handles.image, format: request.format },
            memory: handles.memory,
            max_miplevels,
            levels: request.mip_levels,
        }
    }

    /// Whether the image has to be replaced to hold an image of `size` with
    /// or without a mip chain.
    pub open spec fn needs_new(&self, size: Size, mipmap: bool) -> bool {
        self.image.size != at_least_one(size) || (mipmap && self.max_miplevels == 1) || (!mipmap
            && self.max_miplevels != 1)
    }

    /// The commands that fill the mip chain of the image and end the pass
    /// that rendered into it.
    pub open spec fn mipmap_commands(&self) -> Seq<ImageCommand> {
        seq![open_chain(self.levels)] + chain_commands(self.image.size, self.levels) + seq![
            close_chain(self.levels),
        ]
    }

    /// The commands that copy `source` into the image.
    pub open spec fn copy_commands(source: VulkanImage, source_layout: ImageLayout) -> Seq<ImageCommand> {
        seq![
            to_transfer_dst(PipelineStage::FragmentShader),
            ImageCommand::Copy { source: source.image, source_layout, extent: source.size },
            to_shader_read(),
        ]
    }

    /// The commands that clear the image.
    pub open spec fn clear_commands() -> Seq<ImageCommand> {
        seq![to_transfer_dst(PipelineStage::TopOfPipe), ImageCommand::ClearColor, to_shader_read()]
    }

    /// What the backend has to create before [`OwnedImage::new`] is called
    /// with the same arguments: the format with linear RGBA8 standing in for
    /// `Unknown`, no empty side, and as many mip levels as a full chain has
    /// but no more than `max_miplevels` and no fewer than one.
    pub fn new_request(size: Size, format: ImageFormat, max_miplevels: u32) -> (request: ImageRequest)
        ensures
            request == Self::request_for(size, format, max_miplevels),
            request.size.width >= 1,
            request.size.height >= 1,
            request.format != ImageFormat::Unknown,
            1 <= request.mip_levels <= 32,
    {
        let size = Size {
            width: if size.width == 0 { 1 } else { size.width },
            height: if size.height == 0 { 1 } else { size.height },
        };
        let mut levels = calc_miplevel(size);
        if levels > max_miplevels {
            levels = max_miplevels;
        }
        if levels == 0 {
            levels = 1;
        }
        ImageRequest { size, format: format.or_default(), mip_levels: levels }
    }

    /// An image of `size` and `format` made of what the backend created for
    /// [`OwnedImage::new_request`].
    pub fn new(size: Size, format: ImageFormat, max_miplevels: u32, handles: ImageHandles) -> (image: OwnedImage)
        ensures
            image == Self::created(Self::request_for(size, format, max_miplevels), max_miplevels, handles),
            image.wf(),
    {
        let request = Self::new_request(size, format, max_miplevels);
        OwnedImage {
            image_view: handles.image_view,
            image: VulkanImage { size: request.size, image: handles.image, format: request.format },
            memory: handles.memory,
            max_miplevels,
            levels: request.mip_levels,
        }
    }

    /// What has to be created before [`OwnedImage::scale`] is called with
    /// the same arguments: nothing where the image already has the size
    /// that `scaling` resolves to and the mip chain that `mipmap` asks for.
    pub fn scale_request(
        &self,
        scaling: Scale2D,
        format: ImageFormat,
        viewport_size: Size,
        original: Size,
        source: Size,
        mipmap: bool,
    ) -> (request: Option<ImageRequest>)
        ensures
            request == (if self.needs_new(scaling.resolved(source, viewport_size, original), mipmap) {
                Some(
                    Self::request_for(
                        scaling.resolved(source, viewport_size, original),
                        format,
                        levels_limit(mipmap),
                    ),
                )
            } else {
                None
            }),
    {
        let size = resolve_scale(scaling, source, viewport_size, original);
        if self.image.size != size || (mipmap && self.max_miplevels == 1) || (!mipmap && self.max_miplevels != 1) {
            Some(Self::new_request(size, format, if mipmap { u32::MAX } else { 1 }))
        } else {
            None
        }
    }

    /// The commands that a resize records: for an image that was replaced,
    /// the barrier that takes each of its levels to the layout asked for;
    /// without a layout, or without a replacement, none.
    pub open spec fn scale_commands(replaced: bool, levels: u32, layout: Option<OwnedImageLayout>) -> Seq<
        ImageCommand,
    > {
        if replaced && layout is Some {
            seq![
                ImageCommand::PipelineBarrier {
                    src_stage: layout->0.src_stage,
                    dst_stage: layout->0.dst_stage,
                    first: transition(
                        0,
                        levels,
                        ImageLayout::Undefined,
                        layout->0.dst_layout,
                        Access::Empty,
                        layout->0.dst_access,
                    ),
                    second: None,
                },
            ]
        } else {
            Seq::<ImageCommand>::empty()
        }
    }

    /// Resizes the image to what `scaling` resolves to. Where that takes a
    /// new image, `handles` is what the backend created for
    /// [`OwnedImage::scale_request`]; the image that is replaced is handed
    /// back for the caller to destroy.
    pub fn scale(
        &mut self,
        scaling: Scale2D,
        format: ImageFormat,
        viewport_size: Size,
        original: Size,
        source: Size,
        mipmap: bool,
        layout: Option<OwnedImageLayout>,
        handles: Option<ImageHandles>,
    ) -> (result: Result<(Size, Option<OwnedImage>, Vec<ImageCommand>), FilterChainError>)
        requires
            old(self).wf(),
        ensures
            final(self).wf(),
            (old(self).needs_new(scaling.resolved(source, viewport_size, original), mipmap) <==> handles is Some)
                ==> result is Ok && ({
                let size = scaling.resolved(source, viewport_size, original);
                let replaced = old(self).needs_new(size, mipmap);
                &&& result->Ok_0.0 == size
                &&& final(self).image.size == size
                &&& *final(self) == (if replaced {
                    Self::created(Self::request_for(size, format, levels_limit(mipmap)), levels_limit(mipmap), handles->0)
                } else {
                    *old(self)
                })
                &&& result->Ok_0.1 == (if replaced {
                    Some(*old(self))
                } else {
                    None
                })
                &&& result->Ok_0.2@ == Self::scale_commands(replaced, final(self).levels, layout)
            }),
            !(old(self).needs_new(scaling.resolved(source, viewport_size, original), mipmap) <==> handles is Some)
                ==> result is Err && result->Err_0 == FilterChainError::AllocationMismatch && *final(self) == *old(
                self,
            ),
    {
        let size = resolve_scale(scaling, source, viewport_size, original);
        let request = self.scale_request(scaling, format, viewport_size, original, source, mipmap);
        let mut commands: Vec<ImageCommand> = Vec::new();
        match (request, handles) {
            (None, None) => Ok((size, None, commands)),
            (Some(_), Some(handles)) => {
                let replaced = *self;
                *self = Self::new(size, format, if mipmap { u32::MAX } else { 1 }, handles);
                match layout {
                    Some(layout) => {
                        commands.push(
                            ImageCommand::PipelineBarrier {
                                src_stage: layout.src_stage,
                                dst_stage: layout.dst_stage,
                                first: ImageBarrier {
                                    src_access: Access::Empty,
                                    dst_access: layout.dst_access,
                                    old_layout: ImageLayout::Undefined,
                                    new_layout: layout.dst_layout,
                                    base_mip_level: 0,
                                    level_count: self.levels,
                                },
                                second: None,
                            },
                        );
                    },
                    None => {},
                }
                assert(commands@ =~= Self::scale_commands(true, self.levels, Some(layout->0)) || layout is None);
                Ok((size, Some(replaced), commands))
            },
            _ => Err(FilterChainError::AllocationMismatch),
        }
    }

    /// Views the image as a sampled input; the image keeps its handles.
    pub fn as_input(&self, filter: FilterMode, wrap_mode: WrapMode) -> (input: InputImage)
        ensures
            input == (InputImage {
                image: self.image,
                image_view: self.image_view,
                wrap_mode,
                filter_mode: filter,
                mip_filter: filter,
            }),
    {
        InputImage { image: self.image, image_view: self.image_view, wrap_mode, filter_mode: filter, mip_filter: filter }
    }

    /// Records the commands that fill the mip chain of the image after a
    /// pass has rendered into its first level: each level is downsampled
    /// from the one above it, and a single barrier at the end moves every
    /// level to where shaders read it.
    pub fn generate_mipmaps_and_end_pass(&self) -> (commands: Vec<ImageCommand>)
        requires
            self.wf(),
        ensures
            commands@ == self.mipmap_commands(),
    {
        let levels = self.levels;
        let mut commands: Vec<ImageCommand> = Vec::new();
        commands.push(
            ImageCommand::PipelineBarrier {
                src_stage: PipelineStage::AllGraphics,
                dst_stage: PipelineStage::Transfer,
                first: ImageBarrier {
                    src_access: Access::ColorAttachmentWrite,
                    dst_access: Access::TransferRead,
                    old_layout: ImageLayout::ColorAttachmentOptimal,
                    new_layout: ImageLayout::TransferSrcOptimal,
                    base_mip_level: 0,
                    level_count: 1,
                },
                second: if levels > 1 {
                    Some(
                        ImageBarrier {
                            src_access: Access::Empty,
                            dst_access: Access::TransferWrite,
                            old_layout: ImageLayout::Undefined,
                            new_layout: ImageLayout::TransferDstOptimal,
                            base_mip_level: 1,
                            level_count: REMAINING_MIP_LEVELS,
                        },
                    )
                } else {
                    None
                },
            },
        );
        let mut level: u32 = 1;
        while level < levels
            invariant
                1 <= level,
                level <= levels || levels == 0,
                levels == self.levels,
                levels >= 1,
                commands@ == seq![open_chain(levels)] + chain_commands(self.image.size, level),
            decreases levels - level,
        {
            if level > 1 {
                commands.push(
                    ImageCommand::PipelineBarrier {
                        src_stage: PipelineStage::Transfer,
                        dst_stage: PipelineStage::Transfer,
                        first: ImageBarrier {
                            src_access: Access::TransferWrite,
                            dst_access: Access::TransferRead,
                            old_layout: ImageLayout::TransferDstOptimal,
                            new_layout: ImageLayout::TransferSrcOptimal,
                            base_mip_level: level - 1,
                            level_count: 1,
                        },
                        second: None,
                    },
                );
            }
            let src_size = scale_mipmap(self.image.size, level - 1);
            let dst_size = scale_mipmap(self.image.size, level);
            commands.push(ImageCommand::Blit { src_level: level - 1, src_size, dst_level: level, dst_size });
            assert(commands@ =~= seq![open_chain(levels)] + (chain_commands(self.image.size, level) + level_commands(
                self.image.size,
                level,
            )));
            level = level + 1;
        }
        if levels > 1 {
            commands.push(
                ImageCommand::PipelineBarrier {
                    src_stage: PipelineStage::Transfer,
                    dst_stage: PipelineStage::FragmentShader,
                    first: ImageBarrier {
                        src_access: Access::TransferRead,
                        dst_access: Access::ShaderRead,
                        old_layout: ImageLayout::TransferSrcOptimal,
                        new_layout: ImageLayout::ShaderReadOnlyOptimal,
                        base_mip_level: 0,
                        level_count: levels - 1,
                    },
                    second: Some(
                        ImageBarrier {
                            src_access: Access::TransferWrite,
                            dst_access: Access::ShaderRead,
                            old_layout: ImageLayout::TransferDstOptimal,
                            new_layout: ImageLayout::ShaderReadOnlyOptimal,
                            base_mip_level: levels - 1,
                            level_count: 1,
                        },
                    ),
                },
            );
        } else {
            commands.push(
                ImageCommand::PipelineBarrier {
                    src_stage: PipelineStage::Transfer,
                    dst_stage: PipelineStage::FragmentShader,
                    first: ImageBarrier {
                        src_access: Access::TransferRead,
                        dst_access: Access::ShaderRead,
                        old_layout: ImageLayout::TransferSrcOptimal,
                        new_layout: ImageLayout::ShaderReadOnlyOptimal,
                        base_mip_level: 0,
                        level_count: 1,
                    },
                    second: None,
                },
            );
        }
        assert(commands@ =~= self.mipmap_commands());
        commands
    }

    /// Whether the image has to be replaced to take a copy of `source`:
    /// where size or format differ.
    pub open spec fn copy_needs(&self, source: VulkanImage) -> bool {
        self.image.size != at_least_one(source.size) || self.image.format != source.format.resolved()
    }

    /// What has to be created before [`OwnedImage::copy_from`] is called
    /// with the same source: nothing where size and format already agree.
    pub fn copy_request(&self, source: &VulkanImage) -> (request: Option<ImageRequest>)
        ensures
            request == (if self.copy_needs(*source) {
                Some(Self::request_for(source.size, source.format, self.max_miplevels))
            } else {
                None
            }),
    {
        let request = Self::new_request(source.size, source.format, self.max_miplevels);
        if self.image.size != request.size || self.image.format != request.format {
            Some(request)
        } else {
            None
        }
    }

    /// Makes the image a copy of `source`: replaces it by one of the
    /// source's size and format where they differ, then records the copy
    /// between two barriers, one that takes every level to a transfer
    /// destination and one that takes every level to where shaders read
    /// it. The image that is replaced is handed back for the caller to
    /// destroy.
    pub fn copy_from(
        &mut self,
        source: &VulkanImage,
        source_layout: ImageLayout,
        handles: Option<ImageHandles>,
    ) -> (result: Result<(Option<OwnedImage>, Vec<ImageCommand>), FilterChainError>)
        requires
            old(self).wf(),
        ensures
            final(self).wf(),
            (old(self).copy_needs(*source) <==> handles is Some) ==> result is Ok && ({
                let replaced = old(self).copy_needs(*source);
                &&& *final(self) == (if replaced {
                    Self::created(
                        Self::request_for(source.size, source.format, old(self).max_miplevels),
                        old(self).max_miplevels,
                        handles->0,
                    )
                } else {
                    *old(self)
                })
                &&& final(self).image.size == at_least_one(source.size)
                &&& final(self).image.format == source.format.resolved()
                &&& result->Ok_0.0 == (if replaced {
                    Some(*old(self))
                } else {
                    None
                })
                &&& result->Ok_0.1@ == Self::copy_commands(*source, source_layout)
            }),
            !(old(self).copy_needs(*source) <==> handles is Some) ==> result is Err && result->Err_0
                == FilterChainError::AllocationMismatch && *final(self) == *old(self),
    {
        let replaced = match (self.copy_request(source), handles) {
            (None, None) => None,
            (Some(_), Some(handles)) => {
                let replaced = *self;
                *self = Self::new(source.size, source.format, self.max_miplevels, handles);
                Some(replaced)
            },
            _ => {
                return Err(FilterChainError::AllocationMismatch);
            },
        };
        let mut commands: Vec<ImageCommand> = Vec::new();
        commands.push(whole_to_transfer_dst(PipelineStage::FragmentShader));
        commands.push(ImageCommand::Copy { source: source.image, source_layout, extent: source.size });
        commands.push(whole_to_shader_read());
        assert(commands@ =~= Self::copy_commands(*source, source_layout));
        Ok((replaced, commands))
    }

    /// Records the commands that clear the image to opaque black: every
    /// level is taken to a transfer destination, the first level is
    /// cleared, and every level is taken to where shaders read it.
    pub fn clear(&self) -> (commands: Vec<ImageCommand>)
        ensures
            commands@ == Self::clear_commands(),
    {
        let mut commands: Vec<ImageCommand> = Vec::new();
        commands.push(whole_to_transfer_dst(PipelineStage::TopOfPipe));
        commands.push(ImageCommand::ClearColor);
        commands.push(whole_to_shader_read());
        assert(commands@ =~= Self::clear_commands());
        commands
    }

    /// What is to be destroyed when the image is dropped: the view and the
    /// image, each unless its handle is null.
    pub fn release(&self) -> (release: Release)
        ensures
            release.image_view == (if self.image_view != 0 {
                Some(self.image_view)
            } else {
                None
            }),
            release.image == (if self.image.image != 0 {
                Some(self.image.image)
            } else {
                None
            }),
    {
        Release {
            image_view: if self.image_view != 0 { Some(self.image_view) } else { None },
            image: if self.image.image != 0 { Some(self.image.image) } else { None },
        }
    }
}

/// Whether memory type `index` can back a resource that accepts the types
/// in `type_bits`, one bit for each type, and has every property in `wanted`.
pub open spec fn memory_type_suits(type_bits: u32, property_flags: Seq<u32>, wanted: u32, index: int) -> bool {
    &&& 0 <= index < property_flags.len()
    &&& index < 32
    &&& (type_bits >> (index as u32)) & 1 == 1
    &&& property_flags[index] & wanted == wanted
}

/// Finds the first memory type that can back a resource: one that the
/// resource accepts and that has every property in `wanted`.
pub fn find_memory_type(type_bits: u32, property_flags: &[u32], wanted: u32) -> (found: Option<u32>)
    ensures
        match found {
            Some(index) => memory_type_suits(type_bits, property_flags@, wanted, index as int) && forall|k: int|
                0 <= k < index ==> !memory_type_suits(type_bits, property_flags@, wanted, k),
            None => forall|k: int| !memory_type_suits(type_bits, property_flags@, wanted, k),
        },
{
    let mut index: u32 = 0;
    while index < 32 && (index as usize) < property_flags.len()
        invariant
            index <= 32,
            index <= property_flags@.len(),
            forall|k: int| 0 <= k < index ==> !memory_type_suits(type_bits, property_flags@, wanted, k),
        decreases 32 - index,
    {
        if (type_bits >> index) & 1 == 1 && property_flags[index as usize] & wanted == wanted {
            return Some(index);
        }
        index = index + 1;
    }
    None
}

fn whole_to_transfer_dst(src_stage: PipelineStage) -> (command: ImageCommand)
    ensures
        command == to_transfer_dst(src_stage),
{
    ImageCommand::PipelineBarrier {
        src_stage,
        dst_stage: PipelineStage::Transfer,
        first: ImageBarrier {
            src_access: Access::Empty,
            dst_access: Access::TransferWrite,
            old_layout: ImageLayout::Undefined,
            new_layout: ImageLayout::TransferDstOptimal,
            base_mip_level: 0,
            level_count: REMAINING_MIP_LEVELS,
        },
        second: None,
    }
}

fn whole_to_shader_read() -> (command: ImageCommand)
    ensures
        command == to_shader_read(),
{
    ImageCommand::PipelineBarrier {
        src_stage: PipelineStage::Transfer,
        dst_stage: PipelineStage::FragmentShader,
        first: ImageBarrier {
            src_access: Access::TransferWrite,
            dst_access: Access::ShaderRead,
            old_layout: ImageLayout::TransferDstOptimal,
            new_layout: ImageLayout::ShaderReadOnlyOptimal,
            base_mip_level: 0,
            level_count: REMAINING_MIP_LEVELS,
        },
        second: None,
    }
}

/// The layouts of an image while its mip chain is filled: the first `done`
/// levels are transfer sources, the others transfer destinations.
pub open spec fn while_filling(levels: nat, done: nat) -> Seq<ImageLayout> {
    Seq::new(
        levels,
        |level: int|
            if level < done {
                ImageLayout::TransferSrcOptimal
            } else {
                ImageLayout::TransferDstOptimal
            },
    )
}

/// An image of which every level is where shaders read it.
pub open spec fn readable(levels: nat) -> Seq<ImageLayout> {
    Seq::new(levels, |level: int| ImageLayout::ShaderReadOnlyOptimal)
}

/// Commands recorded one run after another fit where each run fits what
/// the run before it left, and leave what the second run leaves.
pub proof fn lemma_commands_concat(layouts: Seq<ImageLayout>, first: Seq<ImageCommand>, second: Seq<ImageCommand>)
    ensures
        commands_fit(layouts, first + second) == (commands_fit(layouts, first) && commands_fit(
            after_commands(layouts, first),
            second,
        )),
        after_commands(layouts, first + second) == after_commands(after_commands(layouts, first), second),
    decreases second.len(),
{
    if second.len() == 0 {
        assert(first + second =~= first);
    } else {
        assert((first + second).drop_last() =~= first + second.drop_last());
        assert((first + second).last() == second.last());
        lemma_commands_concat(layouts, first, second.drop_last());
    }
}

/// A single command fits where it fits, and leaves what it leaves.
pub proof fn lemma_single_command(layouts: Seq<ImageLayout>, command: ImageCommand)
    ensures
        commands_fit(layouts, seq![command]) == command_fits(layouts, command),
        after_commands(layouts, seq![command]) == after_command(layouts, command),
{
    assert(seq![command].drop_last() =~= Seq::<ImageCommand>::empty());
    assert(seq![command].last() == command);
    reveal_with_fuel(commands_fit, 2);
    reveal_with_fuel(after_commands, 2);
}

/// Filling the levels of a mip chain one after the other reads only levels
/// that are transfer sources and writes only levels that are transfer
/// destinations; afterwards every level but the last is a transfer source.
pub proof fn lemma_chain_fits(size: Size, levels: u32, upto: u32)
    requires
        1 <= upto <= levels,
    ensures
        commands_fit(while_filling(levels as nat, 1), chain_commands(size, upto)),
        after_commands(while_filling(levels as nat, 1), chain_commands(size, upto)) == while_filling(
            levels as nat,
            if upto <= 2 {
                1
            } else {
                (upto - 1) as nat
            },
        ),
    decreases upto,
{
    let start = while_filling(levels as nat, 1);
    if upto > 1 {
        let level = (upto - 1) as u32;
        lemma_chain_fits(size, levels, level);
        let before = after_commands(start, chain_commands(size, level));
        lemma_commands_concat(start, chain_commands(size, level), level_commands(size, level));
        let blit = level_commands(size, level).last();
        if level > 1 {
            let barrier = level_commands(size, level)[0];
            assert(level_commands(size, level) =~= seq![barrier] + seq![blit]);
            lemma_commands_concat(before, seq![barrier], seq![blit]);
            lemma_single_command(before, barrier);
            lemma_single_command(after_command(before, barrier), blit);
            assert(before == while_filling(levels as nat, (level - 1) as nat) || level == 2);
            assert(after_command(before, barrier) =~= while_filling(levels as nat, level as nat));
        } else {
            assert(level_commands(size, level) =~= seq![blit]);
            lemma_single_command(before, blit);
        }
    }
}

/// Generating mipmaps for an image whose first level was just rendered to
/// records only commands that fit the layouts they find, and leaves every
/// level where shaders read it.
pub proof fn lemma_mipmaps_end_readable(image: OwnedImage, layouts: Seq<ImageLayout>)
    requires
        image.wf(),
        layouts.len() == image.levels,
        layouts[0] == ImageLayout::ColorAttachmentOptimal,
    ensures
        commands_fit(layouts, image.mipmap_commands()),
        after_commands(layouts, image.mipmap_commands()) == readable(image.levels as nat),
{
    let levels = image.levels;
    let open = seq![open_chain(levels)];
    let fill = chain_commands(image.image.size, levels);
    let close = seq![close_chain(levels)];
    lemma_single_command(layouts, open_chain(levels));
    let opened = after_command(layouts, open_chain(levels));
    assert(opened =~= while_filling(levels as nat, 1));
    lemma_chain_fits(image.image.size, levels, levels);
    let filled = after_commands(opened, fill);
    lemma_commands_concat(layouts, open, fill);
    lemma_commands_concat(layouts, open + fill, close);
    lemma_single_command(filled, close_chain(levels));
    assert(after_command(filled, close_chain(levels)) =~= readable(levels as nat));
}

/// Copying into an image, and clearing it, record only commands that fit
/// the layouts they find, whatever these are, and leave every level where
/// shaders read it.
pub proof fn lemma_copy_and_clear_end_readable(
    source: VulkanImage,
    source_layout: ImageLayout,
    layouts: Seq<ImageLayout>,
)
    requires
        1 <= layouts.len() <= 32,
    ensures
        commands_fit(layouts, OwnedImage::copy_commands(source, source_layout)),
        after_commands(layouts, OwnedImage::copy_commands(source, source_layout)) == readable(layouts.len()),
        commands_fit(layouts, OwnedImage::clear_commands()),
        after_commands(layouts, OwnedImage::clear_commands()) == readable(layouts.len()),
{
    let writable = Seq::new(layouts.len(), |level: int| ImageLayout::TransferDstOptimal);
    let copy = ImageCommand::Copy { source: source.image, source_layout, extent: source.size };
    assert forall|stage: PipelineStage, middle: ImageCommand|
        middle == copy || middle == ImageCommand::ClearColor implies commands_fit(
        layouts,
        seq![to_transfer_dst(stage), middle, to_shader_read()],
    ) && after_commands(layouts, seq![to_transfer_dst(stage), middle, to_shader_read()]) == readable(
        layouts.len(),
    ) by {
        let commands = seq![to_transfer_dst(stage), middle, to_shader_read()];
        assert(commands =~= seq![to_transfer_dst(stage)] + seq![middle] + seq![to_shader_read()]);
        lemma_commands_concat(layouts, seq![to_transfer_dst(stage)] + seq![middle], seq![to_shader_read()]);
        lemma_commands_concat(layouts, seq![to_transfer_dst(stage)], seq![middle]);
        lemma_single_command(layouts, to_transfer_dst(stage));
        assert(after_command(layouts, to_transfer_dst(stage)) =~= writable);
        lemma_single_command(writable, middle);
        lemma_single_command(writable, to_shader_read());
        assert(after_command(writable, to_shader_read()) =~= readable(layouts.len()));
    }
}

} // verus!
