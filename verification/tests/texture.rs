use shader_chain::common::{FilterMode, ImageFormat, Size, WrapMode};
use shader_chain::error::FilterChainError;
use shader_chain::filter_chain::ShaderPreset;
use shader_chain::filter_pass::{key_of, ShaderPassConfig, UniformBinding};
use shader_chain::framebuffer::{Gl3Framebuffer, QuadType};
use shader_chain::quad::vertices;
use shader_chain::scaling::{Scale2D, ScaleFactor, ScaleType, Scaling};
use shader_chain::semantics::{
    BindingMeta, PushReflection, ShaderReflection, UniformLocation, UniqueSemantics, VariableMeta,
};
use shader_chain::texture::{
    find_memory_type, Access, ImageBarrier, ImageCommand, ImageHandles, ImageLayout, ImageRequest, InputImage, OwnedImage,
    OwnedImageLayout, PipelineStage, Release, VulkanImage, REMAINING_MIP_LEVELS,
};
use shader_chain::uniforms::MemberOffset;
use shader_chain::vulkan::{vertex_attributes, FilterChainVulkan, VertexAttribute};

fn handles(seed: u64) -> ImageHandles {
    ImageHandles { image: seed, memory: seed + 1, image_view: seed + 2 }
}

fn double() -> Scale2D {
    let axis = Scaling { scale_type: ScaleType::Source, factor: ScaleFactor::from_integer(2) };
    Scale2D { x: axis, y: axis }
}

/// Replays commands against the layouts of an image's levels and panics on
/// a command that does not fit them.
fn replay(levels: usize, first: ImageLayout, commands: &[ImageCommand]) -> Vec<ImageLayout> {
    let mut layouts = vec![ImageLayout::Undefined; levels];
    layouts[0] = first;
    let apply = |layouts: &mut Vec<ImageLayout>, barrier: &ImageBarrier| {
        let base = barrier.base_mip_level as usize;
        assert!(base < layouts.len());
        assert!(barrier.level_count >= 1);
        let end = if barrier.level_count == REMAINING_MIP_LEVELS {
            layouts.len()
        } else {
            base + barrier.level_count as usize
        };
        assert!(end <= layouts.len());
        for level in base..end {
            assert!(barrier.old_layout == ImageLayout::Undefined || layouts[level] == barrier.old_layout);
            layouts[level] = barrier.new_layout;
        }
    };
    for command in commands {
        match command {
            ImageCommand::PipelineBarrier { first, second, .. } => {
                apply(&mut layouts, first);
                if let Some(second) = second {
                    apply(&mut layouts, second);
                }
            }
            ImageCommand::Blit { src_level, dst_level, .. } => {
                assert_eq!(layouts[*src_level as usize], ImageLayout::TransferSrcOptimal);
                assert_eq!(layouts[*dst_level as usize], ImageLayout::TransferDstOptimal);
            }
            ImageCommand::Copy { .. } | ImageCommand::ClearColor => {
                assert_eq!(layouts[0], ImageLayout::TransferDstOptimal);
            }
        }
    }
    layouts
}

#[test]
fn a_new_image_resolves_format_size_and_levels() {
    assert_eq!(
        OwnedImage::new_request(Size::new(0, 300), ImageFormat::Unknown, u32::MAX),
        ImageRequest { size: Size::new(1, 300), format: ImageFormat::R8G8B8A8Unorm, mip_levels: 9 }
    );
    assert_eq!(OwnedImage::new_request(Size::new(640, 480), ImageFormat::R8G8B8A8Srgb, 1).mip_levels, 1);
    assert_eq!(OwnedImage::new_request(Size::new(640, 480), ImageFormat::R8G8B8A8Srgb, 0).mip_levels, 1);
    assert_eq!(OwnedImage::new_request(Size::new(640, 480), ImageFormat::R8G8B8A8Srgb, 4).mip_levels, 4);
    let image = OwnedImage::new(Size::new(640, 480), ImageFormat::Unknown, u32::MAX, handles(10));
    assert_eq!(
        image,
        OwnedImage {
            image_view: 12,
            image: VulkanImage { size: Size::new(640, 480), image: 10, format: ImageFormat::R8G8B8A8Unorm },
            memory: 11,
            max_miplevels: u32::MAX,
            levels: 10,
        }
    );
}

#[test]
fn scale_replaces_the_image_only_where_it_has_to() {
    let mut image = OwnedImage::new(Size::new(1, 1), ImageFormat::Unknown, 1, handles(10));
    let placeholder = image;
    let viewport = Size::new(640, 480);
    let source = Size::new(100, 50);
    let request = image.scale_request(double(), ImageFormat::Unknown, viewport, source, source, false);
    assert_eq!(
        request,
        Some(ImageRequest { size: Size::new(200, 100), format: ImageFormat::R8G8B8A8Unorm, mip_levels: 1 })
    );
    let layout = OwnedImageLayout {
        dst_layout: ImageLayout::ColorAttachmentOptimal,
        dst_access: Access::ColorAttachmentWrite,
        src_stage: PipelineStage::TopOfPipe,
        dst_stage: PipelineStage::AllGraphics,
    };
    assert_eq!(
        image.scale(double(), ImageFormat::Unknown, viewport, source, source, false, Some(layout), None).err(),
        Some(FilterChainError::AllocationMismatch)
    );
    assert_eq!(image, placeholder);
    let (size, replaced, commands) = image
        .scale(double(), ImageFormat::Unknown, viewport, source, source, false, Some(layout), Some(handles(20)))
        .unwrap();
    assert_eq!(size, Size::new(200, 100));
    assert_eq!(replaced, Some(placeholder));
    assert_eq!(image.image.image, 20);
    assert_eq!(image.image.size, Size::new(200, 100));
    assert_eq!(
        commands,
        vec![ImageCommand::PipelineBarrier {
            src_stage: PipelineStage::TopOfPipe,
            dst_stage: PipelineStage::AllGraphics,
            first: ImageBarrier {
                src_access: Access::Empty,
                dst_access: Access::ColorAttachmentWrite,
                old_layout: ImageLayout::Undefined,
                new_layout: ImageLayout::ColorAttachmentOptimal,
                base_mip_level: 0,
                level_count: 1,
            },
            second: None,
        }]
    );
    let current = image;
    assert_eq!(image.scale_request(double(), ImageFormat::Unknown, viewport, source, source, false), None);
    let (size, replaced, commands) =
        image.scale(double(), ImageFormat::Unknown, viewport, source, source, false, Some(layout), None).unwrap();
    assert_eq!((size, replaced, commands.len()), (Size::new(200, 100), None, 0));
    assert_eq!(image, current);
    assert_eq!(
        image
            .scale(double(), ImageFormat::Unknown, viewport, source, source, false, None, Some(handles(30)))
            .err(),
        Some(FilterChainError::AllocationMismatch)
    );
    // Asking for a mip chain replaces an image of the same size.
    let mipped = image.scale_request(double(), ImageFormat::Unknown, viewport, source, source, true).unwrap();
    assert_eq!(mipped.mip_levels, 8);
    let (_, _, commands) = image
        .scale(double(), ImageFormat::Unknown, viewport, source, source, true, None, Some(handles(30)))
        .unwrap();
    assert!(commands.is_empty());
    assert_eq!(image.levels, 8);
    assert_eq!(image.max_miplevels, u32::MAX);
}

#[test]
fn as_input_keeps_the_handles() {
    let image = OwnedImage::new(Size::new(8, 8), ImageFormat::R8G8B8A8Srgb, 1, handles(10));
    assert_eq!(
        image.as_input(FilterMode::Linear, WrapMode::Repeat),
        InputImage {
            image: image.image,
            image_view: 12,
            wrap_mode: WrapMode::Repeat,
            filter_mode: FilterMode::Linear,
            mip_filter: FilterMode::Linear,
        }
    );
}

#[test]
fn mipmaps_of_a_single_level_only_change_the_layout() {
    let image = OwnedImage::new(Size::new(1, 1), ImageFormat::Unknown, u32::MAX, handles(10));
    assert_eq!(image.levels, 1);
    let commands = image.generate_mipmaps_and_end_pass();
    assert_eq!(commands.len(), 2);
    assert!(commands.iter().all(|command| matches!(command, ImageCommand::PipelineBarrier { second: None, .. })));
    assert_eq!(
        replay(1, ImageLayout::ColorAttachmentOptimal, &commands),
        vec![ImageLayout::ShaderReadOnlyOptimal]
    );
}

#[test]
fn mipmaps_blit_each_level_from_the_one_above() {
    let image = OwnedImage::new(Size::new(16, 4), ImageFormat::Unknown, u32::MAX, handles(10));
    assert_eq!(image.levels, 5);
    let commands = image.generate_mipmaps_and_end_pass();
    let blits: Vec<(u32, Size, u32, Size)> = commands
        .iter()
        .filter_map(|command| match command {
            ImageCommand::Blit { src_level, src_size, dst_level, dst_size } => {
                Some((*src_level, *src_size, *dst_level, *dst_size))
            }
            _ => None,
        })
        .collect();
    assert_eq!(
        blits,
        vec![
            (0, Size::new(16, 4), 1, Size::new(8, 2)),
            (1, Size::new(8, 2), 2, Size::new(4, 1)),
            (2, Size::new(4, 1), 3, Size::new(2, 1)),
            (3, Size::new(2, 1), 4, Size::new(1, 1)),
        ]
    );
    // One barrier to open, one before each blit but the first, one to close.
    assert_eq!(commands.len(), 1 + 4 + 3 + 1);
    assert!(matches!(
        commands[0],
        ImageCommand::PipelineBarrier {
            src_stage: PipelineStage::AllGraphics,
            dst_stage: PipelineStage::Transfer,
            second: Some(_),
            ..
        }
    ));
    assert!(matches!(
        commands[commands.len() - 1],
        ImageCommand::PipelineBarrier {
            src_stage: PipelineStage::Transfer,
            dst_stage: PipelineStage::FragmentShader,
            second: Some(_),
            ..
        }
    ));
    assert_eq!(
        replay(5, ImageLayout::ColorAttachmentOptimal, &commands),
        vec![ImageLayout::ShaderReadOnlyOptimal; 5]
    );
}

#[test]
fn mipmap_commands_fit_the_layouts_of_every_chain() {
    for (width, height) in [(1u32, 1u32), (2, 1), (3, 5), (256, 224), (1920, 1080), (u32::MAX, 1)] {
        for max in [1u32, 2, 3, 7, u32::MAX] {
            let image = OwnedImage::new(Size::new(width, height), ImageFormat::Unknown, max, handles(10));
            let commands = image.generate_mipmaps_and_end_pass();
            let layouts = replay(image.levels as usize, ImageLayout::ColorAttachmentOptimal, &commands);
            assert!(layouts.iter().all(|layout| *layout == ImageLayout::ShaderReadOnlyOptimal));
        }
    }
}

#[test]
fn copy_and_clear_are_wrapped_in_transitions() {
    let mut image = OwnedImage::new(Size::new(16, 4), ImageFormat::R8G8B8A8Unorm, u32::MAX, handles(10));
    let source = VulkanImage { size: Size::new(16, 4), image: 99, format: ImageFormat::R8G8B8A8Unorm };
    assert_eq!(image.copy_request(&source), None);
    let (replaced, commands) = image.copy_from(&source, ImageLayout::General, None).unwrap();
    assert_eq!(replaced, None);
    assert_eq!(commands.len(), 3);
    assert_eq!(
        commands[1],
        ImageCommand::Copy { source: 99, source_layout: ImageLayout::General, extent: Size::new(16, 4) }
    );
    assert_eq!(
        replay(5, ImageLayout::ShaderReadOnlyOptimal, &commands),
        vec![ImageLayout::ShaderReadOnlyOptimal; 5]
    );
    let clear = image.clear();
    assert_eq!(clear.len(), 3);
    assert_eq!(clear[1], ImageCommand::ClearColor);
    assert!(matches!(
        clear[0],
        ImageCommand::PipelineBarrier { src_stage: PipelineStage::TopOfPipe, dst_stage: PipelineStage::Transfer, .. }
    ));
    assert_eq!(replay(5, ImageLayout::Undefined, &clear), vec![ImageLayout::ShaderReadOnlyOptimal; 5]);
}

#[test]
fn copy_resizes_to_the_source_first() {
    let mut image = OwnedImage::new(Size::new(16, 4), ImageFormat::R8G8B8A8Unorm, 1, handles(10));
    let before = image;
    let source = VulkanImage { size: Size::new(32, 8), image: 99, format: ImageFormat::R8G8B8A8Srgb };
    assert_eq!(
        image.copy_request(&source),
        Some(ImageRequest { size: Size::new(32, 8), format: ImageFormat::R8G8B8A8Srgb, mip_levels: 1 })
    );
    assert_eq!(
        image.copy_from(&source, ImageLayout::General, None).err(),
        Some(FilterChainError::AllocationMismatch)
    );
    assert_eq!(image, before);
    let (replaced, commands) = image.copy_from(&source, ImageLayout::General, Some(handles(20))).unwrap();
    assert_eq!(replaced, Some(before));
    assert_eq!(image.image, VulkanImage { size: Size::new(32, 8), image: 20, format: ImageFormat::R8G8B8A8Srgb });
    assert_eq!(commands.len(), 3);
    let same_size = VulkanImage { format: ImageFormat::R8G8B8A8Unorm, ..source };
    assert!(image.copy_request(&same_size).is_some());
}

#[test]
fn release_names_what_exists() {
    let image = OwnedImage::new(Size::new(16, 4), ImageFormat::Unknown, 1, handles(10));
    assert_eq!(image.release(), Release { image_view: Some(12), image: Some(10) });
    let null = OwnedImage::new(
        Size::new(16, 4),
        ImageFormat::Unknown,
        1,
        ImageHandles { image: 0, memory: 0, image_view: 0 },
    );
    assert_eq!(null.release(), Release { image_view: None, image: None });
    assert_eq!(Gl3Framebuffer::new(1).release(), (None, None));
    let raw = Gl3Framebuffer::new_from_raw(5, 6, ImageFormat::R8G8B8A8Unorm, Size::new(4, 4), 1);
    assert_eq!(raw.release(), (None, None));
    assert_eq!((raw.handle(), raw.image(), raw.size(), raw.format()), (6, 5, Size::new(4, 4), ImageFormat::R8G8B8A8Unorm));
}

#[test]
fn quads_span_their_coordinates() {
    let decode = |data: [u32; 24]| -> Vec<f32> { data.iter().map(|bits| f32::from_bits(*bits)).collect() };
    assert_eq!(
        decode(vertices(QuadType::Offscreen)),
        vec![
            -1.0, -1.0, 0.0, 1.0, 0.0, 0.0, //
            1.0, -1.0, 0.0, 1.0, 1.0, 0.0, //
            -1.0, 1.0, 0.0, 1.0, 0.0, 1.0, //
            1.0, 1.0, 0.0, 1.0, 1.0, 1.0,
        ]
    );
    assert_eq!(
        decode(vertices(QuadType::Final)),
        vec![
            0.0, 0.0, 0.0, 1.0, 0.0, 0.0, //
            1.0, 0.0, 0.0, 1.0, 1.0, 0.0, //
            0.0, 1.0, 0.0, 1.0, 0.0, 1.0, //
            1.0, 1.0, 0.0, 1.0, 1.0, 1.0,
        ]
    );
    assert_eq!(
        vertex_attributes(),
        [
            VertexAttribute { location: 0, binding: 0, offset: 0 },
            VertexAttribute { location: 1, binding: 0, offset: 8 },
        ]
    );
}

fn config() -> ShaderPassConfig {
    ShaderPassConfig {
        filter: FilterMode::Linear,
        wrap_mode: WrapMode::ClampToBorder,
        frame_count_mod: 0,
        mipmap: false,
        scaling: double(),
        format: ImageFormat::Unknown,
    }
}

fn reflection(offset: usize) -> ShaderReflection {
    ShaderReflection {
        ubo: None,
        push_constant: Some(PushReflection { size: 64 }),
        meta: BindingMeta {
            parameter_meta: Vec::new(),
            variable_meta: vec![VariableMeta {
                semantics: UniqueSemantics::MVP,
                offset: MemberOffset::PushConstant(offset),
                location: UniformLocation { vertex: -1, fragment: -1 },
            }],
            texture_meta: Vec::new(),
            texture_size_meta: Vec::new(),
        },
    }
}

#[test]
fn an_explicit_chain_loads_its_passes() {
    let preset = |count: usize| ShaderPreset {
        shader_count: count as i32,
        shaders: vec![config(); count],
        textures: Vec::new(),
        parameters: Vec::new(),
    };
    let chain = FilterChainVulkan::load_from_preset(preset(2), vec![reflection(0), reflection(0)]).unwrap();
    assert_eq!(chain.passes.len(), 2);
    for pass in &chain.passes {
        assert_eq!(pass.uniform_bindings.len(), 1);
        let held = pass.uniform_bindings.values().next().unwrap();
        assert_eq!(held.offset, MemberOffset::PushConstant(0));
        assert_eq!(held.binding, UniformBinding::SemanticVariable(UniqueSemantics::MVP));
        assert_eq!(pass.uniform_bindings.get(&key_of(held)), Some(held));
        assert_eq!(pass.uniform_storage.push_slice(), &[0u8; 64]);
        assert!(pass.uniform_storage.ubo_slice().is_empty());
        assert_eq!(pass.config, config());
    }
    assert_eq!(
        FilterChainVulkan::load_from_preset(preset(2), vec![reflection(0)]).err(),
        Some(FilterChainError::AllocationMismatch)
    );
    assert_eq!(
        FilterChainVulkan::load_from_preset(preset(2), vec![reflection(0), reflection(4)]).err(),
        Some(FilterChainError::UniformOffsetOutOfRange)
    );
    assert!(FilterChainVulkan::load_from_preset(preset(0), Vec::new()).unwrap().passes.is_empty());
    let mut twice = reflection(0);
    let again = twice.meta.variable_meta[0];
    twice.meta.variable_meta.push(again);
    assert_eq!(
        FilterChainVulkan::load_from_preset(preset(1), vec![twice]).err(),
        Some(FilterChainError::ShaderReflectError)
    );
}

#[test]
fn the_first_suitable_memory_type_is_found() {
    let flags = [0b0001u32, 0b0110, 0b0111, 0b0100];
    assert_eq!(find_memory_type(0b1111, &flags, 0b0100), Some(1));
    assert_eq!(find_memory_type(0b1101, &flags, 0b0100), Some(2));
    assert_eq!(find_memory_type(0b1001, &flags, 0b0100), Some(3));
    assert_eq!(find_memory_type(0b0001, &flags, 0b0100), None);
    assert_eq!(find_memory_type(0b1111, &flags, 0b1000), None);
    assert_eq!(find_memory_type(0b1111, &flags, 0), Some(0));
    assert_eq!(find_memory_type(u32::MAX, &[], 0), None);
    assert_eq!(find_memory_type(0b1_0000, &flags, 0), None);
    let many = [1u32; 40];
    assert_eq!(find_memory_type(1 << 31, &many, 1), Some(31));
    assert_eq!(find_memory_type(0, &many, 1), None);
}
