use frame_surface::frame::{acquire_error, plan_frame, AcquireError, ClearColor, FrameStep};
use frame_surface::surface::{is_drawable, surface_configuration, SurfaceUsage, FRAME_LATENCY};
use wgpu::{AstcBlock, AstcChannel, CompositeAlphaMode, PresentMode, SurfaceError, TextureFormat};
use winit::dpi::PhysicalSize;

fn view_format_of(format: TextureFormat) -> TextureFormat {
    surface_configuration(PhysicalSize::new(1, 1), format).view_format
}

#[test]
fn view_format_is_the_srgb_variant() {
    assert_eq!(view_format_of(TextureFormat::Bgra8Unorm), TextureFormat::Bgra8UnormSrgb);
    assert_eq!(view_format_of(TextureFormat::Rgba8Unorm), TextureFormat::Rgba8UnormSrgb);
}

#[test]
fn every_format_with_an_srgb_variant_gets_it() {
    let rows = [
        (TextureFormat::Rgba8Unorm, TextureFormat::Rgba8UnormSrgb),
        (TextureFormat::Bgra8Unorm, TextureFormat::Bgra8UnormSrgb),
        (TextureFormat::Bc1RgbaUnorm, TextureFormat::Bc1RgbaUnormSrgb),
        (TextureFormat::Bc2RgbaUnorm, TextureFormat::Bc2RgbaUnormSrgb),
        (TextureFormat::Bc3RgbaUnorm, TextureFormat::Bc3RgbaUnormSrgb),
        (TextureFormat::Bc7RgbaUnorm, TextureFormat::Bc7RgbaUnormSrgb),
        (TextureFormat::Etc2Rgb8Unorm, TextureFormat::Etc2Rgb8UnormSrgb),
        (TextureFormat::Etc2Rgb8A1Unorm, TextureFormat::Etc2Rgb8A1UnormSrgb),
        (TextureFormat::Etc2Rgba8Unorm, TextureFormat::Etc2Rgba8UnormSrgb),
    ];
    for (plain, srgb) in rows {
        assert_eq!(view_format_of(plain), srgb);
    }
}

#[test]
fn astc_keeps_its_block_and_turns_srgb() {
    let plain = TextureFormat::Astc { block: AstcBlock::B6x5, channel: AstcChannel::Unorm };
    let srgb = TextureFormat::Astc { block: AstcBlock::B6x5, channel: AstcChannel::UnormSrgb };
    let hdr = TextureFormat::Astc { block: AstcBlock::B6x5, channel: AstcChannel::Hdr };
    assert_eq!(view_format_of(plain), srgb);
    assert_eq!(view_format_of(srgb), srgb);
    assert_eq!(view_format_of(hdr), hdr);
}

#[test]
fn format_without_srgb_variant_is_its_own_view_format() {
    assert_eq!(view_format_of(TextureFormat::Rgba16Float), TextureFormat::Rgba16Float);
    assert_eq!(view_format_of(TextureFormat::Rgb10a2Unorm), TextureFormat::Rgb10a2Unorm);
    assert_eq!(view_format_of(TextureFormat::R8Unorm), TextureFormat::R8Unorm);
}

#[test]
fn srgb_format_is_its_own_view_format() {
    assert_eq!(view_format_of(TextureFormat::Bgra8UnormSrgb), TextureFormat::Bgra8UnormSrgb);
    assert_eq!(view_format_of(TextureFormat::Rgba8UnormSrgb), TextureFormat::Rgba8UnormSrgb);
}

#[test]
fn configuration_has_the_fixed_policy() {
    let config = surface_configuration(PhysicalSize::new(800, 600), TextureFormat::Bgra8Unorm);
    assert_eq!(config.usage, SurfaceUsage::RenderAttachment);
    assert_eq!(config.format, TextureFormat::Bgra8Unorm);
    assert_eq!(config.view_format, TextureFormat::Bgra8UnormSrgb);
    assert_eq!(config.alpha_mode, CompositeAlphaMode::Auto);
    assert_eq!(config.width, 800);
    assert_eq!(config.height, 600);
    assert_eq!(config.desired_maximum_frame_latency, 2);
    assert_eq!(config.present_mode, PresentMode::AutoVsync);
    assert_eq!(FRAME_LATENCY, 2);
}

#[test]
fn configuration_takes_width_and_height_apart() {
    let config = surface_configuration(PhysicalSize::new(1, u32::MAX), TextureFormat::Rgba8Unorm);
    assert_eq!(config.width, 1);
    assert_eq!(config.height, u32::MAX);
}

#[test]
fn size_is_drawable_when_both_dimensions_are_positive() {
    assert!(is_drawable(PhysicalSize::new(1, 1)));
    assert!(is_drawable(PhysicalSize::new(800, 600)));
    assert!(is_drawable(PhysicalSize::new(u32::MAX, u32::MAX)));
    assert!(!is_drawable(PhysicalSize::new(0, 0)));
    assert!(!is_drawable(PhysicalSize::new(0, 600)));
    assert!(!is_drawable(PhysicalSize::new(800, 0)));
}

#[test]
fn clear_colour_is_opaque_red() {
    let red = ClearColor::opaque_red();
    assert_eq!(red, ClearColor { red: 255, green: 0, blue: 0, alpha: 255 });
}

#[test]
fn surface_reasons_keep_their_names() {
    assert_eq!(acquire_error(SurfaceError::Timeout), AcquireError::Timeout);
    assert_eq!(acquire_error(SurfaceError::Outdated), AcquireError::Outdated);
    assert_eq!(acquire_error(SurfaceError::Lost), AcquireError::Lost);
    assert_eq!(acquire_error(SurfaceError::OutOfMemory), AcquireError::OutOfMemory);
    assert_eq!(acquire_error(SurfaceError::Other), AcquireError::Other);
}

#[test]
fn frame_has_five_steps_in_order() {
    let frame = plan_frame("image", PhysicalSize::new(640, 480), TextureFormat::Bgra8Unorm);
    assert_eq!(frame.target, "image");
    assert_eq!(frame.extent, PhysicalSize::new(640, 480));
    assert_eq!(
        frame.steps,
        vec![
            FrameStep::CreateView { format: TextureFormat::Bgra8UnormSrgb },
            FrameStep::ClearPass { color: ClearColor { red: 255, green: 0, blue: 0, alpha: 255 } },
            FrameStep::Submit,
            FrameStep::PrePresentNotify,
            FrameStep::Present,
        ]
    );
}

#[test]
fn frame_presents_once_and_last() {
    let frame = plan_frame(1u8, PhysicalSize::new(2, 2), TextureFormat::Rgba16Float);
    let presents = frame.steps.iter().filter(|step| **step == FrameStep::Present).count();
    assert_eq!(presents, 1);
    assert_eq!(frame.steps.last(), Some(&FrameStep::Present));
    let submit = frame.steps.iter().position(|step| *step == FrameStep::Submit);
    let present = frame.steps.iter().position(|step| *step == FrameStep::Present);
    assert!(submit.is_some());
    assert!(submit < present);
}
