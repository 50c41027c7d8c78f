use shader_chain::common::{FilterMode, ImageFormat, Size, WrapMode};
use shader_chain::error::FilterChainError;
use shader_chain::framebuffer::{
    Allocation, Command, Gl3Framebuffer, GlImage, TextureRequest, Verdict, FRAMEBUFFER_COMPLETE,
    FRAMEBUFFER_UNSUPPORTED,
};
use shader_chain::scaling::{Scale2D, ScaleFactor, ScaleType, Scaling};

fn allocation(image: u32, format: ImageFormat) -> Allocation {
    Allocation { framebuffer: 40, image, format }
}

#[test]
fn a_new_target_is_a_placeholder() {
    let target = Gl3Framebuffer::new(4);
    assert_eq!(target.size, Size::new(1, 1));
    assert_eq!(target.image, 0);
    assert_eq!(target.handle, 0);
    assert_eq!(target.max_levels, 4);
    assert_eq!(target.mip_levels, 1);
    assert!(!target.is_raw);
}

#[test]
fn init_asks_for_what_it_installs() {
    let mut target = Gl3Framebuffer::new(u32::MAX);
    let request = target.init_request(Size::new(300, 200), ImageFormat::Unknown).unwrap();
    assert_eq!(
        request,
        TextureRequest {
            framebuffer: 0,
            release: 0,
            size: Size::new(300, 200),
            format: ImageFormat::R8G8B8A8Unorm,
            levels: 9,
        }
    );
    let answer = allocation(41, ImageFormat::R8G8B8A8Unorm);
    assert_eq!(target.init(Size::new(300, 200), ImageFormat::Unknown, Some(answer)), Ok(()));
    assert_eq!(target.image, 41);
    assert_eq!(target.handle, 40);
    assert_eq!(target.size, Size::new(300, 200));
    assert_eq!(target.format, ImageFormat::R8G8B8A8Unorm);
    assert_eq!(target.mip_levels, 9);
    assert_eq!(target.max_levels, u32::MAX);
}

#[test]
fn resize_to_the_current_size_and_format_changes_nothing() {
    let mut target = Gl3Framebuffer::new(1);
    let size = Size::new(300, 200);
    let answer = allocation(41, ImageFormat::R16G16B16A16Sfloat);
    target.init(size, ImageFormat::R16G16B16A16Sfloat, Some(answer)).unwrap();
    let before = target;
    assert_eq!(target.init_request(size, ImageFormat::R16G16B16A16Sfloat), None);
    assert_eq!(target.init(size, ImageFormat::R16G16B16A16Sfloat, None), Ok(()));
    assert_eq!(target, before);
    assert_eq!(target.init(target.size(), target.format(), None), Ok(()));
    assert_eq!(target, before);
    // Any difference asks for a new texture and names the old one for release.
    let wider = target.init_request(Size::new(301, 200), ImageFormat::R16G16B16A16Sfloat).unwrap();
    assert_eq!(wider.release, 41);
    assert_eq!(wider.framebuffer, 40);
    assert!(target.init_request(size, ImageFormat::R8G8B8A8Unorm).is_some());
    assert!(target.init_request(size, ImageFormat::Unknown).is_some());
}

#[test]
fn a_target_that_fell_back_keeps_its_texture() {
    let mut target = Gl3Framebuffer::new(1);
    let size = Size::new(64, 64);
    let request = target.init_request(size, ImageFormat::R32G32B32A32Sfloat).unwrap();
    let made = allocation(41, request.format);
    let retry = match request.assess(&made, FRAMEBUFFER_UNSUPPORTED) {
        Verdict::Retry(retry) => retry,
        other => panic!("{:?}", other),
    };
    let again = allocation(42, retry.format);
    assert_eq!(retry.assess(&again, FRAMEBUFFER_COMPLETE), Verdict::Accept);
    target.init(size, ImageFormat::R32G32B32A32Sfloat, Some(again)).unwrap();
    assert_eq!(target.format(), ImageFormat::R8G8B8A8Unorm);
    assert_eq!(target.requested, ImageFormat::R32G32B32A32Sfloat);
    let before = target;
    // Neither the format that was asked for nor the format that it has asks again.
    assert_eq!(target.init_request(size, ImageFormat::R32G32B32A32Sfloat), None);
    assert_eq!(target.init_request(target.size(), target.format()), None);
    assert_eq!(target.init_request(size, ImageFormat::Unknown), None);
    assert_eq!(target.init(target.size(), target.format(), None), Ok(()));
    assert_eq!(target, before);
    let one = Scaling { scale_type: ScaleType::Source, factor: ScaleFactor::from_integer(1) };
    let rule = Scale2D { x: one, y: one };
    assert_eq!(target.scale(rule, target.format(), Size::new(1, 1), size, size, None), Ok(size));
    assert_eq!(target, before);
    let same = GlImage { handle: 9, format: target.format(), size: target.size() };
    assert_eq!(target.copy_request(&same), None);
    assert_eq!(target.copy_from(&same, None).unwrap().len(), 3);
    assert_eq!(target, before);
    assert_eq!(target.as_texture(FilterMode::Linear, WrapMode::Repeat).image.format, ImageFormat::R8G8B8A8Unorm);
    assert!(target.init_request(size, ImageFormat::R16G16B16A16Sfloat).is_some());
}

#[test]
fn mismatched_answers_are_refused() {
    let mut target = Gl3Framebuffer::new(1);
    let size = Size::new(64, 64);
    assert_eq!(target.init(size, ImageFormat::Unknown, None), Err(FilterChainError::AllocationMismatch));
    assert_eq!(target, Gl3Framebuffer::new(1));
    let answer = allocation(41, ImageFormat::R8G8B8A8Unorm);
    target.init(size, ImageFormat::Unknown, Some(answer)).unwrap();
    let before = target;
    assert_eq!(target.init(size, ImageFormat::Unknown, Some(answer)), Err(FilterChainError::AllocationMismatch));
    assert_eq!(target, before);
}

#[test]
fn empty_sides_are_widened_at_allocation() {
    let mut target = Gl3Framebuffer::new(u32::MAX);
    let request = target.init_request(Size::new(0, 0), ImageFormat::Unknown).unwrap();
    assert_eq!(request.size, Size::new(1, 1));
    assert_eq!(request.levels, 1);
    target.init(Size::new(0, 7), ImageFormat::Unknown, Some(allocation(41, ImageFormat::R8G8B8A8Unorm))).unwrap();
    assert_eq!(target.size, Size::new(1, 7));
    assert_eq!(target.mip_levels, 3);
}

#[test]
fn mip_levels_are_cut_to_the_limit_of_the_target() {
    let size = Size::new(1024, 1024);
    assert_eq!(Gl3Framebuffer::new(1).init_request(size, ImageFormat::Unknown).unwrap().levels, 1);
    assert_eq!(Gl3Framebuffer::new(0).init_request(size, ImageFormat::Unknown).unwrap().levels, 1);
    assert_eq!(Gl3Framebuffer::new(4).init_request(size, ImageFormat::Unknown).unwrap().levels, 4);
    assert_eq!(Gl3Framebuffer::new(u32::MAX).init_request(size, ImageFormat::Unknown).unwrap().levels, 11);
    let mut target = Gl3Framebuffer::new(4);
    target.init(size, ImageFormat::Unknown, Some(allocation(41, ImageFormat::R8G8B8A8Unorm))).unwrap();
    assert_eq!((target.max_levels, target.mip_levels), (4, 4));
    target.init(Size::new(2, 2), ImageFormat::Unknown, Some(allocation(42, ImageFormat::R8G8B8A8Unorm))).unwrap();
    assert_eq!((target.max_levels, target.mip_levels), (4, 2));
}

#[test]
fn unsupported_formats_fall_back_once() {
    let request = TextureRequest {
        framebuffer: 3,
        release: 4,
        size: Size::new(8, 8),
        format: ImageFormat::R16G16B16A16Sfloat,
        levels: 1,
    };
    let made = Allocation { framebuffer: 3, image: 50, format: ImageFormat::R16G16B16A16Sfloat };
    assert_eq!(request.assess(&made, FRAMEBUFFER_COMPLETE), Verdict::Accept);
    // The retry releases the texture that was made in vain.
    let retry = TextureRequest { format: ImageFormat::R8G8B8A8Unorm, release: 50, ..request };
    assert_eq!(request.assess(&made, FRAMEBUFFER_UNSUPPORTED), Verdict::Retry(retry));
    let again = Allocation { framebuffer: 3, image: 51, format: ImageFormat::R8G8B8A8Unorm };
    assert_eq!(retry.assess(&again, FRAMEBUFFER_COMPLETE), Verdict::Accept);
    assert_eq!(
        retry.assess(&again, FRAMEBUFFER_UNSUPPORTED),
        Verdict::Reject(FilterChainError::FramebufferInit(FRAMEBUFFER_UNSUPPORTED))
    );
    assert_eq!(request.assess(&made, 0x8CD6), Verdict::Reject(FilterChainError::FramebufferInit(0x8CD6)));
    assert_eq!(retry.assess(&again, 0), Verdict::Reject(FilterChainError::FramebufferInit(0)));
    // A request for a new framebuffer retries on the one that was made.
    let fresh = TextureRequest { framebuffer: 0, release: 0, ..request };
    let first = Allocation { framebuffer: 9, image: 52, format: ImageFormat::R16G16B16A16Sfloat };
    assert_eq!(
        fresh.assess(&first, FRAMEBUFFER_UNSUPPORTED),
        Verdict::Retry(TextureRequest { framebuffer: 9, release: 52, format: ImageFormat::R8G8B8A8Unorm, ..request })
    );
}

#[test]
fn raw_targets_are_never_reallocated() {
    let mut target =
        Gl3Framebuffer::new_from_raw(5, 6, ImageFormat::R8G8B8A8Srgb, Size::new(640, 480), 1);
    assert!(target.is_raw);
    let before = target;
    assert_eq!(target.init_request(Size::new(10, 10), ImageFormat::Unknown), None);
    let double = Scaling { scale_type: ScaleType::Source, factor: ScaleFactor::from_integer(2) };
    let rule = Scale2D { x: double, y: double };
    let size =
        target.scale(rule, ImageFormat::Unknown, Size::new(640, 480), Size::new(10, 10), Size::new(20, 20), None);
    assert_eq!(size, Ok(Size::new(640, 480)));
    assert_eq!(target, before);
}

#[test]
fn scale_resolves_the_rule_and_returns_the_size() {
    let mut target = Gl3Framebuffer::new(1);
    let double = Scaling { scale_type: ScaleType::Source, factor: ScaleFactor::from_integer(2) };
    let rule = Scale2D { x: double, y: double };
    let viewport = Size::new(640, 480);
    let source = Size::new(20, 30);
    let request = target.scale_request(rule, ImageFormat::Unknown, viewport, source, source).unwrap();
    assert_eq!(request.size, Size::new(40, 60));
    let answer = allocation(41, request.format);
    assert_eq!(
        target.scale(rule, ImageFormat::Unknown, viewport, source, source, Some(answer)),
        Ok(Size::new(40, 60))
    );
    assert_eq!(target.size, Size::new(40, 60));
    let before = target;
    assert_eq!(target.scale_request(rule, ImageFormat::Unknown, viewport, source, source), None);
    assert_eq!(target.scale(rule, ImageFormat::Unknown, viewport, source, source, None), Ok(Size::new(40, 60)));
    assert_eq!(target, before);
}

#[test]
fn clear_binds_only_on_request() {
    let target = Gl3Framebuffer::new_from_raw(5, 6, ImageFormat::R8G8B8A8Unorm, Size::new(4, 4), 1);
    assert_eq!(target.clear(false), vec![Command::Clear]);
    assert_eq!(
        target.clear(true),
        vec![Command::BindFramebuffer { handle: 6 }, Command::Clear, Command::BindFramebuffer { handle: 0 }]
    );
}

#[test]
fn copy_resizes_first_and_then_copies() {
    let mut target = Gl3Framebuffer::new(1);
    let image = GlImage { handle: 9, format: ImageFormat::R8G8B8A8Srgb, size: Size::new(32, 16) };
    let request = target.copy_request(&image).unwrap();
    assert_eq!(request.size, Size::new(32, 16));
    assert_eq!(request.format, ImageFormat::R8G8B8A8Srgb);
    assert_eq!(target.copy_from(&image, None), Err(FilterChainError::AllocationMismatch));
    let commands = target.copy_from(&image, Some(allocation(41, request.format))).unwrap();
    assert_eq!(
        commands,
        vec![
            Command::BindFramebuffer { handle: 40 },
            Command::CopyImage { source: 9, target: 41, size: Size::new(32, 16) },
            Command::BindFramebuffer { handle: 0 },
        ]
    );
    assert_eq!(target.copy_request(&image), None);
    let again = target.copy_from(&GlImage { handle: 10, ..image }, None).unwrap();
    assert_eq!(again[1], Command::CopyImage { source: 10, target: 41, size: Size::new(32, 16) });
}

#[test]
fn a_target_of_any_level_limit_takes_a_copy() {
    let mut target = Gl3Framebuffer::new(4);
    let image = GlImage { handle: 9, format: ImageFormat::R8G8B8A8Unorm, size: Size::new(64, 32) };
    let request = target.copy_request(&image).unwrap();
    assert_eq!(request.levels, 4);
    let commands = target.copy_from(&image, Some(allocation(41, request.format))).unwrap();
    assert_eq!(commands[1], Command::CopyImage { source: 9, target: 41, size: Size::new(64, 32) });
    assert_eq!((target.size(), target.format(), target.max_levels, target.mip_levels), (
        Size::new(64, 32),
        ImageFormat::R8G8B8A8Unorm,
        4,
        4,
    ));
    let mut wrapped = Gl3Framebuffer::new_from_raw(5, 6, ImageFormat::R8G8B8A8Unorm, Size::new(64, 32), 4);
    let before = wrapped;
    assert_eq!(wrapped.copy_request(&image), None);
    assert_eq!(
        wrapped.copy_from(&image, None).unwrap()[1],
        Command::CopyImage { source: 9, target: 5, size: Size::new(64, 32) }
    );
    assert_eq!(wrapped, before);
}

#[test]
fn views_keep_the_image_and_take_the_sampling() {
    let target = Gl3Framebuffer::new_from_raw(5, 6, ImageFormat::R8G8B8A8Unorm, Size::new(4, 4), 1);
    let view = target.as_texture(FilterMode::Linear, WrapMode::MirroredRepeat);
    assert_eq!(view.image, GlImage { handle: 5, format: ImageFormat::R8G8B8A8Unorm, size: Size::new(4, 4) });
    assert_eq!(view.filter, FilterMode::Linear);
    assert_eq!(view.mip_filter, FilterMode::Linear);
    assert_eq!(view.wrap_mode, WrapMode::MirroredRepeat);
}
