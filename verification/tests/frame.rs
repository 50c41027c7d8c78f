use shader_chain::common::{FilterMode, ImageFormat, Size, WrapMode};
use shader_chain::error::FilterChainError;
use shader_chain::filter_chain::{
    lut_upload, CompiledPass, FilterChain, FrameOptions, LoadedLut, LutUpload, ParameterConfig, ShaderPreset,
    TextureConfig,
};
use shader_chain::filter_pass::{key_of, ShaderPassConfig, Viewport};
use shader_chain::framebuffer::{
    Allocation, Command, Gl3Framebuffer, GlImage, QuadType, Texture, TextureRequest,
};
use shader_chain::scaling::{Scale2D, ScaleFactor, ScaleType, Scaling};
use shader_chain::semantics::{
    BindingMeta, ParameterMeta, PushReflection, ShaderReflection, TextureMeta, TextureSemantics,
    TextureSizeMeta, UboReflection, UniformLocation, UniqueSemantics, VariableMeta,
};
use shader_chain::uniforms::MemberOffset;

const NOWHERE: UniformLocation = UniformLocation { vertex: -1, fragment: -1 };

fn scale(scale_type: ScaleType, value: f32) -> Scale2D {
    let axis = Scaling { scale_type, factor: ScaleFactor::from_bits(value.to_bits()).unwrap() };
    Scale2D { x: axis, y: axis }
}

fn config(scaling: Scale2D) -> ShaderPassConfig {
    ShaderPassConfig {
        filter: FilterMode::Nearest,
        wrap_mode: WrapMode::ClampToEdge,
        frame_count_mod: 0,
        mipmap: false,
        scaling,
        format: ImageFormat::Unknown,
    }
}

fn reflection(textures: Vec<TextureMeta>) -> ShaderReflection {
    ShaderReflection {
        ubo: None,
        push_constant: None,
        meta: BindingMeta {
            parameter_meta: Vec::new(),
            variable_meta: Vec::new(),
            texture_meta: textures,
            texture_size_meta: Vec::new(),
        },
    }
}

fn compiled(reflection: ShaderReflection, program: u32) -> CompiledPass {
    let ubo_ring = if reflection.ubo.is_some() { (500..516).collect() } else { Vec::new() };
    CompiledPass { reflection, program, ubo_location: UniformLocation { vertex: 0, fragment: 1 }, ubo_ring }
}

fn preset(shaders: Vec<ShaderPassConfig>) -> ShaderPreset {
    ShaderPreset { shader_count: shaders.len() as i32, shaders, textures: Vec::new(), parameters: Vec::new() }
}

fn plain_chain(rules: Vec<Scale2D>) -> FilterChain {
    let passes: Vec<CompiledPass> = (0..rules.len()).map(|i| compiled(reflection(Vec::new()), 10 + i as u32)).collect();
    FilterChain::load_from_preset(preset(rules.into_iter().map(config).collect()), passes, Vec::new()).unwrap()
}

fn viewport(width: u32, height: u32) -> Viewport {
    Viewport {
        x: 0,
        y: 0,
        output: Gl3Framebuffer::new_from_raw(900, 901, ImageFormat::R8G8B8A8Unorm, Size::new(width, height), 1),
        mvp: None,
    }
}

fn input(handle: u32, width: u32, height: u32) -> GlImage {
    GlImage { handle, format: ImageFormat::R8G8B8A8Unorm, size: Size::new(width, height) }
}

/// Plays the backend: answers each request with a fresh texture, and a fresh
/// framebuffer where none exists yet.
fn answer(requests: &[TextureRequest], next: &mut u32) -> Vec<Allocation> {
    requests
        .iter()
        .map(|request| {
            let framebuffer = if request.framebuffer == 0 {
                *next += 1;
                *next
            } else {
                request.framebuffer
            };
            *next += 1;
            Allocation { framebuffer, image: *next, format: request.format }
        })
        .collect()
}

fn run(
    chain: &mut FilterChain,
    count: u64,
    viewport: &Viewport,
    input: &GlImage,
    options: Option<&FrameOptions>,
    next: &mut u32,
) -> Vec<Command> {
    let requests = chain.frame_requests(viewport, input);
    let allocations = answer(&requests, next);
    chain.frame(count, viewport, input, options, &allocations).unwrap()
}

fn draws(commands: &[Command]) -> usize {
    commands.iter().filter(|command| matches!(command, Command::DrawQuad { .. })).count()
}

fn bound_at_the_end(commands: &[Command]) -> Option<u32> {
    commands.iter().rev().find_map(|command| match command {
        Command::BindFramebuffer { handle } => Some(*handle),
        _ => None,
    })
}

/// The textures bound for the draw number `draw` of a frame, by binding point.
fn bound_textures(commands: &[Command], draw: usize) -> Vec<(u32, Texture)> {
    let mut seen = 0;
    let mut bound = Vec::new();
    for command in commands {
        match command {
            Command::UseProgram { .. } => bound.clear(),
            Command::BindTexture { binding, texture } => bound.push((*binding, *texture)),
            Command::DrawQuad { .. } => {
                if seen == draw {
                    return bound;
                }
                seen += 1;
            }
            _ => {}
        }
    }
    panic!("no such draw");
}

/// The framebuffer that the draw number `draw` of a frame renders into.
fn draw_target(commands: &[Command], draw: usize) -> u32 {
    let mut seen = 0;
    let mut bound = 0;
    for command in commands {
        match command {
            Command::BindFramebuffer { handle } => bound = *handle,
            Command::DrawQuad { .. } => {
                if seen == draw {
                    return bound;
                }
                seen += 1;
            }
            _ => {}
        }
    }
    panic!("no such draw");
}

#[test]
fn passthrough() {
    let mut chain = plain_chain(vec![scale(ScaleType::Source, 1.0)]);
    let target = viewport(1280, 720);
    let frame = input(7, 256, 224);
    let mut next = 1000;
    let requests = chain.frame_requests(&target, &frame);
    assert_eq!(requests.len(), 2);
    for request in &requests {
        assert_eq!(request.size, Size::new(256, 224));
        assert_eq!(request.format, ImageFormat::R8G8B8A8Unorm);
        assert_eq!(request.levels, 1);
        assert_eq!(request.release, 0);
        assert_eq!(request.framebuffer, 0);
    }
    let commands = run(&mut chain, 0, &target, &frame, None, &mut next);
    assert_eq!(chain.output_framebuffers[0].size, Size::new(256, 224));
    assert_eq!(chain.feedback_framebuffers[0].size, Size::new(256, 224));
    // The feedback image that the frame made is, after the swap, the output image.
    let fresh = chain.output_framebuffers[0];
    assert_eq!(
        commands,
        vec![
            Command::BindVertices,
            Command::BindFramebuffer { handle: fresh.handle },
            Command::Clear,
            Command::BindFramebuffer { handle: 0 },
            Command::UseProgram { pass: 0 },
            Command::BindFramebuffer { handle: 901 },
            Command::SetViewport { x: 0, y: 0, size: Size::new(1280, 720) },
            Command::DrawQuad { quad: QuadType::Final },
            Command::BindFramebuffer { handle: 0 },
            Command::UnbindVertices,
        ]
    );
}

#[test]
fn two_pass_double_then_viewport() {
    let source = vec![TextureMeta { semantics: TextureSemantics::Source, index: 0, binding: 2 }];
    let passes = vec![compiled(reflection(Vec::new()), 10), compiled(reflection(source), 11)];
    let shaders = vec![config(scale(ScaleType::Source, 2.0)), config(scale(ScaleType::Viewport, 1.0))];
    let mut chain = FilterChain::load_from_preset(preset(shaders), passes, Vec::new()).unwrap();
    let target = viewport(640, 480);
    let frame = input(7, 320, 240);
    let mut next = 1000;
    let commands = run(&mut chain, 0, &target, &frame, None, &mut next);
    assert_eq!(chain.output_framebuffers[0].size, Size::new(640, 480));
    assert_eq!(chain.feedback_framebuffers[0].size, Size::new(640, 480));
    assert_eq!(chain.output_framebuffers[1].size, Size::new(640, 480));
    assert_eq!(draws(&commands), 2);
    // What pass 0 rendered into is, after the swap, the feedback image.
    let written = chain.feedback_framebuffers[0];
    assert_eq!(draw_target(&commands, 0), written.handle);
    assert_eq!(draw_target(&commands, 1), 901);
    let bound = bound_textures(&commands, 1);
    assert_eq!(bound.len(), 1);
    assert_eq!(bound[0].0, 2);
    assert_eq!(bound[0].1.image.handle, written.image);
    assert_eq!(bound[0].1.image.size, Size::new(640, 480));
    assert_eq!(chain.common.output_textures[0].image.handle, written.image);
    assert_eq!(bound_at_the_end(&commands), Some(0));
}

#[test]
fn sizes_thread_through_the_passes() {
    let mut chain = plain_chain(vec![
        scale(ScaleType::Source, 2.0),
        scale(ScaleType::Source, 1.5),
        scale(ScaleType::Source, 0.5),
        scale(ScaleType::Viewport, 1.0),
    ]);
    let mut next = 1000;
    run(&mut chain, 0, &viewport(800, 600), &input(7, 100, 60), None, &mut next);
    assert_eq!(chain.output_framebuffers[0].size, Size::new(200, 120));
    assert_eq!(chain.output_framebuffers[1].size, Size::new(300, 180));
    assert_eq!(chain.output_framebuffers[2].size, Size::new(150, 90));
    assert_eq!(chain.output_framebuffers[3].size, Size::new(800, 600));
    for i in 0..4 {
        assert_eq!(chain.feedback_framebuffers[i].size, chain.output_framebuffers[i].size);
    }
}

#[test]
fn feedback() {
    let own_feedback = vec![TextureMeta { semantics: TextureSemantics::PassFeedback, index: 0, binding: 3 }];
    let passes = vec![compiled(reflection(own_feedback), 10), compiled(reflection(Vec::new()), 11)];
    let shaders = vec![config(scale(ScaleType::Source, 1.0)), config(scale(ScaleType::Viewport, 1.0))];
    let mut chain = FilterChain::load_from_preset(preset(shaders), passes, Vec::new()).unwrap();
    let target = viewport(640, 480);
    let mut next = 1000;
    let mut written = Vec::new();
    let mut bound = Vec::new();
    for count in 0..3u64 {
        let commands = run(&mut chain, count, &target, &input(7, 320, 240), None, &mut next);
        let textures = bound_textures(&commands, 0);
        assert_eq!(textures.len(), 1);
        assert_eq!(textures[0].0, 3);
        bound.push(textures[0].1.image.handle);
        // After the swap the image that pass 0 rendered into is its feedback.
        assert_eq!(draw_target(&commands, 0), chain.feedback_framebuffers[0].handle);
        written.push(chain.feedback_framebuffers[0].image);
    }
    assert_ne!(written[0], written[1]);
    assert_eq!(bound[1], written[0]);
    assert_eq!(bound[2], written[1]);
    assert_eq!(written[2], written[0]);
}

#[test]
fn history() {
    let old = vec![TextureMeta { semantics: TextureSemantics::OriginalHistory, index: 2, binding: 4 }];
    let passes = vec![compiled(reflection(old), 10)];
    let shaders = vec![config(scale(ScaleType::Source, 1.0))];
    let mut chain = FilterChain::load_from_preset(preset(shaders), passes, Vec::new()).unwrap();
    assert_eq!(chain.history_framebuffers.len(), 3);
    assert_eq!(chain.common.history_textures.len(), 3);
    let target = viewport(640, 480);
    let mut next = 1000;
    let mut copies = Vec::new();
    let mut bound = Vec::new();
    for count in 0..3u64 {
        let frame = input(100 + count as u32, 320, 240);
        let commands = run(&mut chain, count, &target, &frame, None, &mut next);
        let copy = commands
            .iter()
            .find_map(|command| match command {
                Command::CopyImage { source, target, size } => Some((*source, *target, *size)),
                _ => None,
            })
            .unwrap();
        assert_eq!(copy.0, 100 + count as u32);
        assert_eq!(copy.2, Size::new(320, 240));
        assert_eq!(chain.history_framebuffers[0].image, copy.1);
        assert_eq!(chain.history_framebuffers[0].size, Size::new(320, 240));
        copies.push(copy.1);
        bound.push(bound_textures(&commands, 0)[0].1);
        assert_eq!(bound_at_the_end(&commands), Some(0));
    }
    // Frame 0 has no history yet: the binding names no image.
    assert_eq!(bound[0].image.handle, 0);
    assert_eq!(bound[1].image.handle, 0);
    // In frame 2 the history two frames back is the copy of the first input.
    assert_eq!(bound[2].image.handle, copies[0]);
    assert_eq!(bound[2].image.size, Size::new(320, 240));
    assert_eq!(chain.history_framebuffers[1].image, copies[1]);
    assert_eq!(chain.history_framebuffers[2].image, copies[0]);
}

#[test]
fn history_rotates_by_one_each_frame() {
    let old = vec![TextureMeta { semantics: TextureSemantics::OriginalHistory, index: 3, binding: 4 }];
    let passes = vec![compiled(reflection(old), 10)];
    let mut chain =
        FilterChain::load_from_preset(preset(vec![config(scale(ScaleType::Source, 1.0))]), passes, Vec::new())
            .unwrap();
    assert_eq!(chain.history_framebuffers.len(), 4);
    let target = viewport(64, 64);
    let mut next = 1000;
    for count in 0..6u64 {
        let before: Vec<Gl3Framebuffer> = chain.history_framebuffers.iter().copied().collect();
        run(&mut chain, count, &target, &input(50, 32, 32), None, &mut next);
        for k in 1..4 {
            assert_eq!(chain.history_framebuffers[k], before[k - 1]);
        }
        assert_eq!(chain.history_framebuffers[0].size, Size::new(32, 32));
        assert_ne!(chain.history_framebuffers[0].image, 0);
    }
    // Once every image has the input's size nothing more is allocated.
    assert!(chain.frame_requests(&target, &input(50, 32, 32)).is_empty());
}

#[test]
fn history_is_kept_only_where_it_is_referenced() {
    let none = plain_chain(vec![scale(ScaleType::Source, 1.0)]);
    assert_eq!(none.history_framebuffers.len(), 0);
    let alias = vec![TextureMeta { semantics: TextureSemantics::OriginalHistory, index: 0, binding: 1 }];
    let chain = FilterChain::load_from_preset(
        preset(vec![config(scale(ScaleType::Source, 1.0))]),
        vec![compiled(reflection(alias), 10)],
        Vec::new(),
    )
    .unwrap();
    assert_eq!(chain.history_framebuffers.len(), 0);
    let mut by_size = reflection(Vec::new());
    by_size.push_constant = Some(PushReflection { size: 16 });
    by_size.meta.texture_size_meta.push(TextureSizeMeta {
        semantics: TextureSemantics::OriginalHistory,
        index: 4,
        offset: MemberOffset::PushConstant(0),
        location: NOWHERE,
    });
    let one = vec![TextureMeta { semantics: TextureSemantics::OriginalHistory, index: 1, binding: 1 }];
    let chain = FilterChain::load_from_preset(
        preset(vec![config(scale(ScaleType::Source, 1.0)), config(scale(ScaleType::Source, 1.0))]),
        vec![compiled(reflection(one), 10), compiled(by_size, 11)],
        Vec::new(),
    )
    .unwrap();
    assert_eq!(chain.history_framebuffers.len(), 5);
}

#[test]
fn dynamic_resize() {
    let mut chain = plain_chain(vec![scale(ScaleType::Viewport, 1.0)]);
    let frame = input(7, 320, 240);
    let mut next = 1000;
    run(&mut chain, 0, &viewport(640, 480), &frame, None, &mut next);
    let small_output = chain.output_framebuffers[0];
    let small_feedback = chain.feedback_framebuffers[0];
    assert_eq!(small_output.size, Size::new(640, 480));
    assert!(chain.frame_requests(&viewport(640, 480), &frame).is_empty());

    let large = viewport(1920, 1080);
    let requests = chain.frame_requests(&large, &frame);
    assert_eq!(requests.len(), 2);
    assert_eq!(requests[0].release, small_output.image);
    assert_eq!(requests[0].framebuffer, small_output.handle);
    assert_eq!(requests[1].release, small_feedback.image);
    assert_eq!(requests[0].size, Size::new(1920, 1080));
    let commands = run(&mut chain, 1, &large, &frame, None, &mut next);
    assert_eq!(chain.output_framebuffers[0].size, Size::new(1920, 1080));
    assert_eq!(chain.feedback_framebuffers[0].size, Size::new(1920, 1080));
    let released = [small_output.image, small_feedback.image];
    assert!(!released.contains(&chain.output_framebuffers[0].image));
    assert!(!released.contains(&chain.feedback_framebuffers[0].image));
    for command in &commands {
        if let Command::BindTexture { texture, .. } = command {
            assert!(!released.contains(&texture.image.handle));
        }
    }
    assert!(!released.contains(&chain.common.feedback_textures[0].image.handle));
}

#[test]
fn resized_feedback_is_never_bound_stale() {
    let own_feedback = vec![TextureMeta { semantics: TextureSemantics::PassFeedback, index: 0, binding: 3 }];
    let passes = vec![compiled(reflection(own_feedback), 10)];
    let mut chain =
        FilterChain::load_from_preset(preset(vec![config(scale(ScaleType::Viewport, 1.0))]), passes, Vec::new())
            .unwrap();
    let frame = input(7, 320, 240);
    let mut next = 1000;
    run(&mut chain, 0, &viewport(640, 480), &frame, None, &mut next);
    let released = [chain.output_framebuffers[0].image, chain.feedback_framebuffers[0].image];
    let commands = run(&mut chain, 1, &viewport(800, 600), &frame, None, &mut next);
    let bound = bound_textures(&commands, 0);
    assert!(!released.contains(&bound[0].1.image.handle));
    assert_eq!(bound[0].1.image.size, Size::new(800, 600));
    assert_eq!(bound[0].1.image.handle, chain.output_framebuffers[0].image);
}

#[test]
fn passes_enabled_clamp() {
    let mut chain = plain_chain(vec![
        scale(ScaleType::Source, 2.0),
        scale(ScaleType::Source, 2.0),
        scale(ScaleType::Viewport, 1.0),
    ]);
    assert_eq!(chain.common.config.passes_enabled, 3);
    chain.set_passes_enabled(1);
    assert_eq!(chain.common.config.passes_enabled, 1);
    let before_output: Vec<Gl3Framebuffer> = chain.output_framebuffers.clone();
    let before_feedback: Vec<Gl3Framebuffer> = chain.feedback_framebuffers.clone();
    let mut next = 1000;
    let target = viewport(640, 480);
    let frame = input(7, 320, 240);
    assert_eq!(chain.frame_requests(&target, &frame).len(), 2);
    let commands = run(&mut chain, 0, &target, &frame, None, &mut next);
    assert_eq!(draws(&commands), 1);
    assert_eq!(draw_target(&commands, 0), 901);
    assert_ne!(chain.output_framebuffers[0], before_output[0]);
    assert_ne!(chain.feedback_framebuffers[0], before_feedback[0]);
    for i in 1..3 {
        assert_eq!(chain.output_framebuffers[i], before_output[i]);
        assert_eq!(chain.feedback_framebuffers[i], before_feedback[i]);
    }
    // The images of pass 0 changed places: each holds what the other was given.
    let first = chain.output_framebuffers[0];
    let second = chain.feedback_framebuffers[0];
    run(&mut chain, 1, &target, &frame, None, &mut next);
    assert_eq!(chain.output_framebuffers[0], second);
    assert_eq!(chain.feedback_framebuffers[0], first);
}

#[test]
fn enabled_passes_never_exceed_the_loaded_ones() {
    let mut chain = plain_chain(vec![scale(ScaleType::Source, 1.0), scale(ScaleType::Source, 1.0)]);
    chain.set_passes_enabled(10);
    assert_eq!(chain.common.config.passes_enabled, 2);
    chain.set_passes_enabled(0);
    assert_eq!(chain.common.config.passes_enabled, 0);
    let mut many = preset(vec![config(scale(ScaleType::Source, 1.0))]);
    many.shader_count = 5;
    let chain = FilterChain::load_from_preset(many, vec![compiled(reflection(Vec::new()), 1)], Vec::new()).unwrap();
    assert_eq!(chain.common.config.passes_enabled, 1);
    let mut negative = preset(vec![config(scale(ScaleType::Source, 1.0))]);
    negative.shader_count = -1;
    let chain =
        FilterChain::load_from_preset(negative, vec![compiled(reflection(Vec::new()), 1)], Vec::new()).unwrap();
    assert_eq!(chain.common.config.passes_enabled, 0);
}

#[test]
fn disabled_chain_does_nothing() {
    let old = vec![TextureMeta { semantics: TextureSemantics::OriginalHistory, index: 2, binding: 4 }];
    let mut chain = FilterChain::load_from_preset(
        preset(vec![config(scale(ScaleType::Source, 1.0))]),
        vec![compiled(reflection(old), 10)],
        Vec::new(),
    )
    .unwrap();
    chain.set_passes_enabled(0);
    let target = viewport(640, 480);
    let frame = input(7, 320, 240);
    assert!(chain.frame_requests(&target, &frame).is_empty());
    let history: Vec<Gl3Framebuffer> = chain.history_framebuffers.iter().copied().collect();
    let options = FrameOptions { clear_history: true, frame_direction: 1 };
    let commands = chain.frame(0, &target, &frame, Some(&options), &[]).unwrap();
    assert!(commands.is_empty());
    assert_eq!(chain.output_framebuffers[0], Gl3Framebuffer::new(1));
    assert_eq!(chain.feedback_framebuffers[0], Gl3Framebuffer::new(1));
    assert_eq!(chain.history_framebuffers.iter().copied().collect::<Vec<_>>(), history);
    let spare = [Allocation { framebuffer: 1, image: 2, format: ImageFormat::R8G8B8A8Unorm }];
    assert!(chain.frame(1, &target, &frame, None, &spare).unwrap().is_empty());
}

#[test]
fn surplus_answers_fail_the_frame_and_change_nothing() {
    let mut chain = plain_chain(vec![scale(ScaleType::Source, 1.0)]);
    let target = viewport(640, 480);
    let frame = input(7, 320, 240);
    let one = Allocation { framebuffer: 1, image: 2, format: ImageFormat::R8G8B8A8Unorm };
    assert_eq!(chain.frame(0, &target, &frame, None, &[one; 3]), Err(FilterChainError::AllocationMismatch));
    assert_eq!(chain.output_framebuffers[0], Gl3Framebuffer::new(1));
    assert_eq!(chain.feedback_framebuffers[0], Gl3Framebuffer::new(1));
    let mut next = 1000;
    run(&mut chain, 0, &target, &frame, None, &mut next);
    let output = chain.output_framebuffers[0];
    let feedback = chain.feedback_framebuffers[0];
    assert_eq!(chain.frame(1, &target, &frame, None, &[one]), Err(FilterChainError::AllocationMismatch));
    assert_eq!(chain.output_framebuffers[0], output);
    assert_eq!(chain.feedback_framebuffers[0], feedback);
    assert!(chain.frame(1, &target, &frame, None, &[]).is_ok());
}

#[test]
fn missing_answers_fail_the_frame_and_keep_what_was_allocated() {
    let mut chain = plain_chain(vec![scale(ScaleType::Source, 2.0), scale(ScaleType::Viewport, 1.0)]);
    let target = viewport(640, 480);
    let frame = input(7, 100, 50);
    assert_eq!(chain.frame_requests(&target, &frame).len(), 4);
    assert_eq!(chain.frame(0, &target, &frame, None, &[]), Err(FilterChainError::AllocationMismatch));
    for i in 0..2 {
        assert_eq!(chain.output_framebuffers[i], Gl3Framebuffer::new(1));
        assert_eq!(chain.feedback_framebuffers[i], Gl3Framebuffer::new(1));
    }
    // The backend got as far as the first three requests.
    let made: Vec<Allocation> = (0..3)
        .map(|i| Allocation { framebuffer: 10 + i, image: 20 + i, format: ImageFormat::R8G8B8A8Unorm })
        .collect();
    assert_eq!(chain.frame(0, &target, &frame, None, &made), Err(FilterChainError::AllocationMismatch));
    assert_eq!(chain.output_framebuffers[0].image, 20);
    assert_eq!(chain.output_framebuffers[0].size, Size::new(200, 100));
    assert_eq!(chain.feedback_framebuffers[0].image, 21);
    assert_eq!(chain.output_framebuffers[1].image, 22);
    assert_eq!(chain.output_framebuffers[1].size, Size::new(640, 480));
    assert_eq!(chain.feedback_framebuffers[1], Gl3Framebuffer::new(1));
    assert!(chain.common.output_textures.iter().all(|texture| texture.image.handle == 0));
    // What is left to ask for is the one image that was not allocated.
    let rest = chain.frame_requests(&target, &frame);
    assert_eq!(rest.len(), 1);
    assert_eq!(rest[0].size, Size::new(640, 480));
    let mut next = 1000;
    let commands = run(&mut chain, 0, &target, &frame, None, &mut next);
    assert_eq!(draws(&commands), 2);
}

#[test]
fn a_failed_allocation_leaves_its_image_without_texture() {
    let old = vec![TextureMeta { semantics: TextureSemantics::OriginalHistory, index: 1, binding: 4 }];
    let mut chain = FilterChain::load_from_preset(
        preset(vec![config(scale(ScaleType::Source, 1.0))]),
        vec![compiled(reflection(old), 10)],
        Vec::new(),
    )
    .unwrap();
    let target = viewport(64, 64);
    let mut next = 1000;
    run(&mut chain, 0, &target, &input(7, 32, 32), None, &mut next);
    run(&mut chain, 1, &target, &input(7, 32, 32), None, &mut next);
    let before_output = chain.output_framebuffers[0];
    let before_history: Vec<Gl3Framebuffer> = chain.history_framebuffers.iter().copied().collect();
    // A larger input asks for all three images anew; the backend fails on the second.
    let larger = input(7, 48, 48);
    let requests = chain.frame_requests(&target, &larger);
    assert_eq!(requests.len(), 3);
    let made = Allocation { framebuffer: requests[0].framebuffer, image: 700, format: requests[0].format };
    let failed = Allocation { framebuffer: requests[1].framebuffer, image: 0, format: requests[1].format };
    assert_eq!(chain.frame(2, &target, &larger, None, &[made, failed]), Err(FilterChainError::AllocationMismatch));
    assert_eq!(chain.output_framebuffers[0].image, 700);
    assert_eq!(chain.output_framebuffers[0].size, Size::new(48, 48));
    assert_eq!(chain.output_framebuffers[0].handle, before_output.handle);
    assert_eq!(chain.feedback_framebuffers[0].image, 0);
    assert_eq!(chain.history_framebuffers.iter().copied().collect::<Vec<_>>(), before_history);
    // The next frame asks again for what failed, and has nothing to release for it.
    let again = chain.frame_requests(&target, &larger);
    assert_eq!(again.len(), 2);
    assert_eq!(again[0].release, 0);
    assert_eq!(again[0].framebuffer, chain.feedback_framebuffers[0].handle);
    // A failure of the last request, the history's, is told the same way.
    let feedback = Allocation { framebuffer: again[0].framebuffer, image: 701, format: again[0].format };
    let lost = Allocation { framebuffer: again[1].framebuffer, image: 0, format: again[1].format };
    assert_eq!(chain.frame(2, &target, &larger, None, &[feedback, lost]), Err(FilterChainError::AllocationMismatch));
    assert_eq!(chain.feedback_framebuffers[0].image, 701);
    assert_eq!(chain.history_framebuffers.len(), 2);
    assert_eq!(chain.history_framebuffers[0], before_history[0]);
    assert_eq!(chain.history_framebuffers[1].image, 0);
    assert_eq!(chain.history_framebuffers[1].size, Size::new(48, 48));
    let commands = run(&mut chain, 2, &target, &larger, None, &mut next);
    assert_eq!(draws(&commands), 1);
    assert_ne!(chain.history_framebuffers[0].image, 0);
}

#[test]
fn no_target_of_the_chain_stays_bound() {
    let old = vec![TextureMeta { semantics: TextureSemantics::OriginalHistory, index: 1, binding: 4 }];
    let passes = vec![compiled(reflection(old), 10), compiled(reflection(Vec::new()), 11)];
    let shaders = vec![config(scale(ScaleType::Source, 2.0)), config(scale(ScaleType::Viewport, 1.0))];
    let mut chain = FilterChain::load_from_preset(preset(shaders), passes, Vec::new()).unwrap();
    let mut next = 1000;
    let options = FrameOptions { clear_history: true, frame_direction: 1 };
    for count in 0..4u64 {
        let commands =
            run(&mut chain, count, &viewport(640, 480), &input(7, 320, 240), Some(&options), &mut next);
        assert_eq!(bound_at_the_end(&commands), Some(0));
        assert_eq!(commands.first(), Some(&Command::BindVertices));
        assert_eq!(commands.last(), Some(&Command::UnbindVertices));
    }
}

#[test]
fn clearing_history_skips_images_without_backing() {
    let old = vec![TextureMeta { semantics: TextureSemantics::OriginalHistory, index: 2, binding: 4 }];
    let mut chain = FilterChain::load_from_preset(
        preset(vec![config(scale(ScaleType::Source, 1.0))]),
        vec![compiled(reflection(old), 10)],
        Vec::new(),
    )
    .unwrap();
    let options = FrameOptions { clear_history: true, frame_direction: 1 };
    let target = viewport(64, 64);
    let mut next = 1000;
    let clears = |commands: &[Command]| commands.iter().filter(|c| matches!(c, Command::Clear)).count();
    // In the first frame the one clear is that of the feedback image that was just made.
    let first = run(&mut chain, 0, &target, &input(7, 32, 32), Some(&options), &mut next);
    assert_eq!(clears(&first), 1);
    assert_eq!(first[1], Command::BindFramebuffer { handle: chain.output_framebuffers[0].handle });
    let second = run(&mut chain, 1, &target, &input(7, 32, 32), Some(&options), &mut next);
    assert_eq!(clears(&second), 1);
    let kept = chain.history_framebuffers[1];
    assert_eq!(
        &second[1..4],
        &[
            Command::BindFramebuffer { handle: kept.handle },
            Command::Clear,
            Command::BindFramebuffer { handle: 0 },
        ]
    );
    let third = run(&mut chain, 2, &target, &input(7, 32, 32), None, &mut next);
    assert_eq!(clears(&third), 0);
}

#[test]
fn the_caller_rectangle_is_used_with_the_caller_matrix() {
    let mut chain = plain_chain(vec![scale(ScaleType::Source, 1.0), scale(ScaleType::Viewport, 1.0)]);
    let mut target = viewport(640, 480);
    target.x = 10;
    target.y = 20;
    let mut next = 1000;
    let rectangles = |commands: &[Command]| -> Vec<(i32, i32, Size)> {
        commands
            .iter()
            .filter_map(|command| match command {
                Command::SetViewport { x, y, size } => Some((*x, *y, *size)),
                _ => None,
            })
            .collect()
    };
    let without = run(&mut chain, 0, &target, &input(7, 320, 240), None, &mut next);
    assert_eq!(rectangles(&without), vec![(0, 0, Size::new(320, 240)), (0, 0, Size::new(640, 480))]);
    target.mvp = Some([0; 16]);
    let with = run(&mut chain, 1, &target, &input(7, 320, 240), None, &mut next);
    assert_eq!(rectangles(&with), vec![(0, 0, Size::new(320, 240)), (10, 20, Size::new(640, 480))]);
    let quads: Vec<QuadType> = with
        .iter()
        .filter_map(|command| match command {
            Command::DrawQuad { quad } => Some(*quad),
            _ => None,
        })
        .collect();
    assert_eq!(quads, vec![QuadType::Offscreen, QuadType::Final]);
}

fn full_reflection() -> ShaderReflection {
    let at = |offset: usize| MemberOffset::Ubo(offset);
    ShaderReflection {
        ubo: Some(UboReflection { binding: 5, size: 192 }),
        push_constant: Some(PushReflection { size: 24 }),
        meta: BindingMeta {
            parameter_meta: vec![
                ParameterMeta {
                    id: String::from("strength"),
                    offset: MemberOffset::PushConstant(0),
                    location: NOWHERE,
                    initial: 0.5f32.to_bits(),
                },
                ParameterMeta {
                    id: String::from("gamma"),
                    offset: MemberOffset::PushConstant(4),
                    location: NOWHERE,
                    initial: 2.2f32.to_bits(),
                },
            ],
            variable_meta: vec![
                VariableMeta { semantics: UniqueSemantics::MVP, offset: at(0), location: NOWHERE },
                VariableMeta { semantics: UniqueSemantics::Output, offset: at(64), location: NOWHERE },
                VariableMeta { semantics: UniqueSemantics::FinalViewport, offset: at(80), location: NOWHERE },
                VariableMeta { semantics: UniqueSemantics::FrameCount, offset: at(96), location: NOWHERE },
                VariableMeta { semantics: UniqueSemantics::FrameDirection, offset: at(100), location: NOWHERE },
            ],
            texture_meta: vec![
                TextureMeta { semantics: TextureSemantics::Original, index: 0, binding: 1 },
                TextureMeta { semantics: TextureSemantics::Source, index: 0, binding: 2 },
                TextureMeta { semantics: TextureSemantics::PassOutput, index: 0, binding: 3 },
                TextureMeta { semantics: TextureSemantics::PassOutput, index: 1, binding: 4 },
                TextureMeta { semantics: TextureSemantics::User, index: 0, binding: 6 },
                TextureMeta { semantics: TextureSemantics::User, index: 9, binding: 7 },
            ],
            texture_size_meta: vec![
                TextureSizeMeta { semantics: TextureSemantics::Original, index: 0, offset: at(112), location: NOWHERE },
                TextureSizeMeta { semantics: TextureSemantics::Source, index: 0, offset: at(128), location: NOWHERE },
                TextureSizeMeta {
                    semantics: TextureSemantics::PassOutput,
                    index: 5,
                    offset: at(144),
                    location: NOWHERE,
                },
                TextureSizeMeta { semantics: TextureSemantics::User, index: 0, offset: at(160), location: NOWHERE },
                TextureSizeMeta {
                    semantics: TextureSemantics::OriginalHistory,
                    index: 0,
                    offset: MemberOffset::PushConstant(8),
                    location: NOWHERE,
                },
            ],
        },
    }
}

fn words(values: &[f32]) -> Vec<u8> {
    values.iter().flat_map(|value| value.to_bits().to_le_bytes()).collect()
}

fn size_bytes(width: u32, height: u32) -> Vec<u8> {
    words(&[width as f32, height as f32, 1.0 / width as f32, 1.0 / height as f32])
}

#[test]
fn every_declared_binding_is_written_or_bound() {
    let shaders = vec![config(scale(ScaleType::Source, 2.0)), {
        let mut last = config(scale(ScaleType::Viewport, 1.0));
        last.frame_count_mod = 7;
        last.filter = FilterMode::Linear;
        last
    }];
    let passes = vec![compiled(reflection(Vec::new()), 10), compiled(full_reflection(), 11)];
    let mut loaded = preset(shaders);
    loaded.textures = vec![TextureConfig {
        wrap_mode: WrapMode::Repeat,
        filter_mode: FilterMode::Linear,
        mipmap: true,
    }];
    loaded.parameters = vec![
        ParameterConfig { name: String::from("gamma"), value: 1.0f32.to_bits() },
        ParameterConfig { name: String::from("gamma"), value: 1.8f32.to_bits() },
        ParameterConfig { name: String::from("unused"), value: 9.0f32.to_bits() },
    ];
    let luts = vec![LoadedLut { handle: 77, size: Size::new(16, 8) }];
    let mut chain = FilterChain::load_from_preset(loaded, passes, luts).unwrap();
    let mut target = viewport(640, 480);
    let matrix: [u32; 16] = core::array::from_fn(|i| (i as f32 + 0.5).to_bits());
    target.mvp = Some(matrix);
    let frame = input(7, 320, 240);
    let mut next = 1000;
    let options = FrameOptions { clear_history: false, frame_direction: -1 };
    let commands = run(&mut chain, 23, &target, &frame, Some(&options), &mut next);

    let written = chain.feedback_framebuffers[0];
    let bound = bound_textures(&commands, 1);
    let declared: Vec<u32> = full_reflection().meta.texture_meta.iter().map(|meta| meta.binding).collect();
    assert_eq!(bound.iter().map(|(binding, _)| *binding).collect::<Vec<_>>(), declared);
    assert_eq!(bound[0].1.image, frame);
    assert_eq!(bound[0].1.filter, FilterMode::Nearest);
    assert_eq!(bound[1].1.image.handle, written.image);
    assert_eq!(bound[1].1.filter, FilterMode::Linear);
    assert_eq!(bound[1].1.mip_filter, FilterMode::Linear);
    assert_eq!(bound[2].1.image.handle, written.image);
    assert_eq!(bound[2].1.filter, FilterMode::Nearest);
    assert_eq!(bound[3].1.image.handle, 0);
    assert_eq!(
        bound[4].1,
        Texture {
            image: GlImage { handle: 77, format: ImageFormat::R8G8B8A8Unorm, size: Size::new(16, 8) },
            filter: FilterMode::Linear,
            mip_filter: FilterMode::Linear,
            wrap_mode: WrapMode::Repeat,
        }
    );
    assert_eq!(bound[5].1.image.handle, 0);

    let upload = commands
        .iter()
        .filter_map(|command| match command {
            Command::UploadUniforms { pass, buffer, binding } => Some((*pass, *buffer, *binding)),
            _ => None,
        })
        .collect::<Vec<_>>();
    assert_eq!(upload, vec![(1, 500 + 23 % 16, 5)]);
    assert!(commands.contains(&Command::PushConstants { pass: 1 }));

    let storage = &chain.passes[1].uniform_storage;
    let ubo = storage.ubo_slice();
    let expected_matrix: Vec<u8> = matrix.iter().flat_map(|word| word.to_le_bytes()).collect();
    assert_eq!(&ubo[0..64], expected_matrix.as_slice());
    assert_eq!(&ubo[64..80], size_bytes(640, 480).as_slice());
    assert_eq!(&ubo[80..96], size_bytes(640, 480).as_slice());
    assert_eq!(&ubo[96..100], &(23u32 % 7).to_le_bytes());
    assert_eq!(&ubo[100..104], &(-1i32).to_le_bytes());
    assert_eq!(&ubo[104..112], &[0u8; 8]);
    assert_eq!(&ubo[112..128], size_bytes(320, 240).as_slice());
    assert_eq!(&ubo[128..144], size_bytes(640, 480).as_slice());
    assert_eq!(&ubo[144..160], &[0u8; 16]);
    assert_eq!(&ubo[160..176], size_bytes(16, 8).as_slice());
    assert_eq!(&ubo[176..192], &[0u8; 16]);
    let push = storage.push_slice();
    assert_eq!(&push[0..4], &0.5f32.to_bits().to_le_bytes());
    assert_eq!(&push[4..8], &1.8f32.to_bits().to_le_bytes());
    assert_eq!(&push[8..24], size_bytes(320, 240).as_slice());

    chain.set_parameter(String::from("strength"), 0.75f32.to_bits());
    run(&mut chain, 24, &target, &frame, None, &mut next);
    let storage = &chain.passes[1].uniform_storage;
    assert_eq!(&storage.push_slice()[0..4], &0.75f32.to_bits().to_le_bytes());
    assert_eq!(&storage.ubo_slice()[96..100], &(24u32 % 7).to_le_bytes());
    assert_eq!(&storage.ubo_slice()[100..104], &1i32.to_le_bytes());
}

#[test]
fn intermediate_passes_get_the_default_matrix() {
    let mut with_matrix = reflection(Vec::new());
    with_matrix.ubo = Some(UboReflection { binding: 0, size: 64 });
    with_matrix.meta.variable_meta.push(VariableMeta {
        semantics: UniqueSemantics::MVP,
        offset: MemberOffset::Ubo(0),
        location: NOWHERE,
    });
    let passes = vec![compiled(with_matrix, 10), compiled(reflection(Vec::new()), 11)];
    let shaders = vec![config(scale(ScaleType::Source, 1.0)), config(scale(ScaleType::Viewport, 1.0))];
    let mut chain = FilterChain::load_from_preset(preset(shaders), passes, Vec::new()).unwrap();
    let mut target = viewport(640, 480);
    target.mvp = Some([7; 16]);
    let mut next = 1000;
    run(&mut chain, 0, &target, &input(7, 320, 240), None, &mut next);
    let identity: Vec<f32> = (0..16).map(|i| if i % 5 == 0 { 1.0 } else { 0.0 }).collect();
    assert_eq!(chain.passes[0].uniform_storage.ubo_slice(), words(&identity).as_slice());
}

#[test]
fn the_caller_target_gets_the_matrix_that_covers_it() {
    let mut with_matrix = reflection(Vec::new());
    with_matrix.ubo = Some(UboReflection { binding: 0, size: 64 });
    with_matrix.meta.variable_meta.push(VariableMeta {
        semantics: UniqueSemantics::MVP,
        offset: MemberOffset::Ubo(0),
        location: NOWHERE,
    });
    let mut chain = FilterChain::load_from_preset(
        preset(vec![config(scale(ScaleType::Source, 1.0))]),
        vec![compiled(with_matrix, 10)],
        Vec::new(),
    )
    .unwrap();
    let mut target = viewport(640, 480);
    let mut next = 1000;
    run(&mut chain, 0, &target, &input(7, 320, 240), None, &mut next);
    let cover = [2.0, 0.0, 0.0, 0.0, 0.0, 2.0, 0.0, 0.0, 0.0, 0.0, 0.0, 0.0, -1.0, -1.0, 0.0, 1.0];
    assert_eq!(chain.passes[0].uniform_storage.ubo_slice(), words(&cover).as_slice());
    // The corners of the final quad, (0,0) and (1,1), land on the corners of the target.
    assert_eq!((cover[0] * 0.0 + cover[12], cover[5] * 0.0 + cover[13]), (-1.0, -1.0));
    assert_eq!((cover[0] * 1.0 + cover[12], cover[5] * 1.0 + cover[13]), (1.0, 1.0));
    let own: [u32; 16] = core::array::from_fn(|i| (i as f32).to_bits());
    target.mvp = Some(own);
    run(&mut chain, 1, &target, &input(7, 320, 240), None, &mut next);
    let expected: Vec<u8> = own.iter().flat_map(|word| word.to_le_bytes()).collect();
    assert_eq!(chain.passes[0].uniform_storage.ubo_slice(), expected.as_slice());
}

#[test]
fn a_feedback_image_is_cleared_in_the_frame_that_makes_it() {
    let own_feedback = vec![TextureMeta { semantics: TextureSemantics::PassFeedback, index: 0, binding: 3 }];
    let passes = vec![compiled(reflection(own_feedback), 10), compiled(reflection(Vec::new()), 11)];
    let shaders = vec![config(scale(ScaleType::Source, 1.0)), config(scale(ScaleType::Viewport, 1.0))];
    let mut chain = FilterChain::load_from_preset(preset(shaders), passes, Vec::new()).unwrap();
    let mut next = 1000;
    let cleared = |commands: &[Command]| -> Vec<u32> {
        let first_draw = commands.iter().position(|c| matches!(c, Command::DrawQuad { .. })).unwrap();
        (1..first_draw)
            .filter(|k| commands[*k] == Command::Clear)
            .map(|k| match commands[k - 1] {
                Command::BindFramebuffer { handle } => handle,
                _ => panic!("a clear without a target"),
            })
            .collect()
    };
    let first = run(&mut chain, 0, &viewport(640, 480), &input(7, 320, 240), None, &mut next);
    // What frame 0 binds as the feedback of pass 0 is the image it cleared.
    let bound = bound_textures(&first, 0)[0].1.image.handle;
    assert_eq!(bound, chain.output_framebuffers[0].image);
    assert_eq!(cleared(&first), vec![chain.output_framebuffers[0].handle, chain.output_framebuffers[1].handle]);
    let second = run(&mut chain, 1, &viewport(640, 480), &input(7, 320, 240), None, &mut next);
    assert!(cleared(&second).is_empty());
    let third = run(&mut chain, 2, &viewport(800, 600), &input(7, 320, 240), None, &mut next);
    assert_eq!(cleared(&third), vec![chain.output_framebuffers[1].handle]);
}

#[test]
fn images_of_mipmapped_passes_may_hold_a_full_chain() {
    let mut shaders = vec![config(scale(ScaleType::Source, 1.0)), config(scale(ScaleType::Viewport, 1.0))];
    shaders[0].mipmap = true;
    let passes = vec![compiled(reflection(Vec::new()), 10), compiled(reflection(Vec::new()), 11)];
    let mut chain = FilterChain::load_from_preset(preset(shaders), passes, Vec::new()).unwrap();
    assert_eq!(chain.output_framebuffers[0], Gl3Framebuffer::new(u32::MAX));
    assert_eq!(chain.feedback_framebuffers[0], Gl3Framebuffer::new(u32::MAX));
    assert_eq!(chain.output_framebuffers[1], Gl3Framebuffer::new(1));
    let target = viewport(640, 480);
    let requests = chain.frame_requests(&target, &input(7, 256, 128));
    assert_eq!(requests.iter().map(|request| request.levels).collect::<Vec<_>>(), vec![9, 9, 1, 1]);
    let mut next = 1000;
    let commands = run(&mut chain, 0, &target, &input(7, 256, 128), None, &mut next);
    let written = chain.feedback_framebuffers[0];
    assert_eq!(written.mip_levels, 9);
    assert!(commands.contains(&Command::GenerateMipmaps { image: written.image }));
    assert!(chain.frame_requests(&target, &input(7, 256, 128)).is_empty());
}

#[test]
fn members_are_held_by_what_they_are_bound_to() {
    let mut both = reflection(Vec::new());
    both.ubo = Some(UboReflection { binding: 0, size: 16 });
    both.push_constant = Some(PushReflection { size: 16 });
    let count = |offset: MemberOffset| VariableMeta { semantics: UniqueSemantics::FrameCount, offset, location: NOWHERE };
    // One value may live in both blocks.
    both.meta.variable_meta = vec![count(MemberOffset::Ubo(4)), count(MemberOffset::PushConstant(8))];
    let mut chain = FilterChain::load_from_preset(
        preset(vec![config(scale(ScaleType::Source, 1.0))]),
        vec![compiled(both, 10)],
        Vec::new(),
    )
    .unwrap();
    let held = &chain.passes[0].uniform_bindings;
    assert_eq!(held.len(), 2);
    let mut offsets: Vec<MemberOffset> = held.values().map(|member| member.offset).collect();
    offsets.sort_by_key(|offset| matches!(offset, MemberOffset::PushConstant(_)));
    assert_eq!(offsets, vec![MemberOffset::Ubo(4), MemberOffset::PushConstant(8)]);
    for member in held.values() {
        assert_eq!(held.get(&key_of(member)), Some(member));
    }
    let mut next = 1000;
    run(&mut chain, 77, &viewport(64, 64), &input(7, 32, 32), None, &mut next);
    let storage = &chain.passes[0].uniform_storage;
    assert_eq!(&storage.ubo_slice()[4..8], &77u32.to_le_bytes());
    assert_eq!(&storage.push_slice()[8..12], &77u32.to_le_bytes());
    assert_eq!(&storage.push_slice()[0..4], &[0u8; 4]);
}

#[test]
fn a_member_declared_twice_in_one_block_fails_the_load() {
    let mut twice = reflection(Vec::new());
    twice.push_constant = Some(PushReflection { size: 16 });
    let count = |offset: MemberOffset| VariableMeta { semantics: UniqueSemantics::FrameCount, offset, location: NOWHERE };
    twice.meta.variable_meta = vec![count(MemberOffset::PushConstant(0)), count(MemberOffset::PushConstant(8))];
    let result = FilterChain::load_from_preset(
        preset(vec![config(scale(ScaleType::Source, 1.0))]),
        vec![compiled(twice, 10)],
        Vec::new(),
    );
    assert_eq!(result.err(), Some(FilterChainError::ShaderReflectError));
    let mut sizes = reflection(Vec::new());
    sizes.ubo = Some(UboReflection { binding: 0, size: 64 });
    let size = |index: usize, offset: usize| TextureSizeMeta {
        semantics: TextureSemantics::PassOutput,
        index,
        offset: MemberOffset::Ubo(offset),
        location: NOWHERE,
    };
    sizes.meta.texture_size_meta = vec![size(0, 0), size(1, 16), size(0, 32)];
    let result = FilterChain::load_from_preset(
        preset(vec![config(scale(ScaleType::Source, 1.0))]),
        vec![compiled(sizes, 10)],
        Vec::new(),
    );
    assert_eq!(result.err(), Some(FilterChainError::ShaderReflectError));
}

#[test]
fn the_frame_counter_wraps_into_32_bits() {
    let mut counting = reflection(Vec::new());
    counting.push_constant = Some(PushReflection { size: 4 });
    counting.meta.variable_meta.push(VariableMeta {
        semantics: UniqueSemantics::FrameCount,
        offset: MemberOffset::PushConstant(0),
        location: NOWHERE,
    });
    let mut chain = FilterChain::load_from_preset(
        preset(vec![config(scale(ScaleType::Source, 1.0))]),
        vec![compiled(counting, 10)],
        Vec::new(),
    )
    .unwrap();
    let mut next = 1000;
    let target = viewport(64, 64);
    run(&mut chain, 0x1_0000_0005, &target, &input(7, 32, 32), None, &mut next);
    assert_eq!(chain.passes[0].uniform_storage.push_slice(), &5u32.to_le_bytes());
    assert_eq!(chain.passes[0].frame_count(u64::MAX), u32::MAX);
}

#[test]
fn members_outside_their_block_fail_the_load() {
    let mut outside = reflection(Vec::new());
    outside.ubo = Some(UboReflection { binding: 0, size: 64 });
    outside.meta.variable_meta.push(VariableMeta {
        semantics: UniqueSemantics::MVP,
        offset: MemberOffset::Ubo(4),
        location: NOWHERE,
    });
    let result = FilterChain::load_from_preset(
        preset(vec![config(scale(ScaleType::Source, 1.0))]),
        vec![compiled(outside, 10)],
        Vec::new(),
    );
    assert_eq!(result.err(), Some(FilterChainError::UniformOffsetOutOfRange));

    let mut undeclared = reflection(Vec::new());
    undeclared.meta.parameter_meta.push(ParameterMeta {
        id: String::from("x"),
        offset: MemberOffset::PushConstant(0),
        location: NOWHERE,
        initial: 0,
    });
    let result = FilterChain::load_from_preset(
        preset(vec![config(scale(ScaleType::Source, 1.0))]),
        vec![compiled(undeclared, 10)],
        Vec::new(),
    );
    assert_eq!(result.err(), Some(FilterChainError::UniformOffsetOutOfRange));
}

#[test]
fn load_fails_on_missing_parts() {
    let one = || preset(vec![config(scale(ScaleType::Source, 1.0))]);
    assert_eq!(
        FilterChain::load_from_preset(one(), Vec::new(), Vec::new()).err(),
        Some(FilterChainError::AllocationMismatch)
    );
    let mut with_lut = one();
    with_lut.textures.push(TextureConfig {
        wrap_mode: WrapMode::Repeat,
        filter_mode: FilterMode::Nearest,
        mipmap: false,
    });
    assert_eq!(
        FilterChain::load_from_preset(with_lut, vec![compiled(reflection(Vec::new()), 1)], Vec::new()).err(),
        Some(FilterChainError::LutLoadError)
    );
    let mut ringless = reflection(Vec::new());
    ringless.ubo = Some(UboReflection { binding: 0, size: 16 });
    let mut pass = compiled(ringless, 1);
    pass.ubo_ring.pop();
    assert_eq!(
        FilterChain::load_from_preset(one(), vec![pass], Vec::new()).err(),
        Some(FilterChainError::AllocationMismatch)
    );
}

#[test]
fn a_loaded_chain_starts_from_placeholders() {
    let chain = plain_chain(vec![scale(ScaleType::Source, 1.0), scale(ScaleType::Source, 1.0)]);
    assert_eq!(chain.passes.len(), 2);
    for i in 0..2 {
        assert_eq!(chain.output_framebuffers[i], Gl3Framebuffer::new(1));
        assert_eq!(chain.feedback_framebuffers[i], Gl3Framebuffer::new(1));
        assert_eq!(chain.output_framebuffers[i].size, Size::new(1, 1));
        assert_eq!(chain.passes[i].program, 10 + i as u32);
    }
    let empty = FilterChain::load_from_preset(preset(Vec::new()), Vec::new(), Vec::new()).unwrap();
    assert_eq!(empty.passes.len(), 0);
    assert_eq!(empty.common.config.passes_enabled, 0);
}

#[test]
fn a_first_frame_of_one_texel_still_allocates() {
    let mut chain = plain_chain(vec![scale(ScaleType::Source, 1.0)]);
    let target = viewport(1, 1);
    let frame = input(7, 1, 1);
    assert_eq!(chain.frame_requests(&target, &frame).len(), 2);
    let mut next = 1000;
    run(&mut chain, 0, &target, &frame, None, &mut next);
    assert_ne!(chain.output_framebuffers[0].image, 0);
    assert!(chain.frame_requests(&target, &frame).is_empty());
}

#[test]
fn lut_uploads_follow_the_mipmap_flag() {
    let plain = TextureConfig { wrap_mode: WrapMode::Repeat, filter_mode: FilterMode::Linear, mipmap: false };
    let mipped = TextureConfig { mipmap: true, ..plain };
    assert_eq!(lut_upload(&plain, Size::new(256, 64)), LutUpload { levels: 1, generate_mipmaps: false });
    assert_eq!(lut_upload(&mipped, Size::new(256, 64)), LutUpload { levels: 9, generate_mipmaps: true });
    assert_eq!(lut_upload(&mipped, Size::new(1, 1)), LutUpload { levels: 1, generate_mipmaps: false });
}

#[test]
fn a_pass_resolves_its_format_and_frame_count() {
    let mut shaders = vec![config(scale(ScaleType::Source, 1.0)), config(scale(ScaleType::Source, 1.0))];
    shaders[1].format = ImageFormat::R16G16B16A16Sfloat;
    shaders[1].frame_count_mod = 10;
    let passes = vec![compiled(reflection(Vec::new()), 10), compiled(reflection(Vec::new()), 11)];
    let chain = FilterChain::load_from_preset(preset(shaders), passes, Vec::new()).unwrap();
    assert_eq!(chain.passes[0].get_format(), ImageFormat::R8G8B8A8Unorm);
    assert_eq!(chain.passes[1].get_format(), ImageFormat::R16G16B16A16Sfloat);
    assert_eq!(chain.passes[0].frame_count(1234), 1234);
    assert_eq!(chain.passes[1].frame_count(1234), 4);
    assert_eq!(chain.passes[1].frame_count(u64::MAX), (u64::MAX % 10) as u32);
    let target = viewport(64, 64);
    let requests = chain.frame_requests(&target, &input(7, 32, 32));
    assert_eq!(requests[0].format, ImageFormat::R8G8B8A8Unorm);
    assert_eq!(requests[2].format, ImageFormat::R16G16B16A16Sfloat);
}
