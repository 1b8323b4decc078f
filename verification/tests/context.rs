use frame_surface::frame::{AcquireError, FrameStep};
use frame_surface::state::State;
use frame_surface::surface::surface_configuration;
use wgpu::{SurfaceError, TextureFormat};
use winit::dpi::PhysicalSize;

const FORMATS: [TextureFormat; 3] =
    [TextureFormat::Bgra8Unorm, TextureFormat::Rgba8Unorm, TextureFormat::Rgba16Float];

fn context(width: u32, height: u32) -> State<&'static str> {
    State::new("window", PhysicalSize::new(width, height), &FORMATS).0
}

#[test]
fn new_context_takes_the_first_format() {
    let size = PhysicalSize::new(800, 600);
    let (state, config) = State::new("window", size, &FORMATS);
    assert_eq!(state.surface_format(), TextureFormat::Bgra8Unorm);
    assert_eq!(state.size(), size);
    assert!(state.is_configured());
    assert_eq!(config, surface_configuration(size, TextureFormat::Bgra8Unorm));

    let (other, config) = State::new("window", size, &[TextureFormat::Rgba16Float]);
    assert_eq!(other.surface_format(), TextureFormat::Rgba16Float);
    assert_eq!(config.format, TextureFormat::Rgba16Float);
    assert_eq!(config.view_format, TextureFormat::Rgba16Float);
}

#[test]
fn new_context_keeps_its_window() {
    let (state, _) = State::new(String::from("main window"), PhysicalSize::new(3, 4), &FORMATS);
    assert_eq!(state.get_window(), "main window");
}

#[test]
fn first_frame_succeeds_for_any_size_with_an_area() {
    for (width, height) in [(1, 1), (800, 600), (1, 4096), (u32::MAX, 1), (u32::MAX, u32::MAX)] {
        let mut state = context(width, height);
        let frame = state.render(Ok::<u32, SurfaceError>(17)).expect("the frame is rendered");
        assert_eq!(frame.target, 17);
        assert_eq!(frame.extent, PhysicalSize::new(width, height));
        assert!(state.is_configured());
    }
}

#[test]
fn rendered_frame_views_the_image_as_srgb() {
    let mut state = context(800, 600);
    let frame = state.render(Ok::<u32, SurfaceError>(1)).unwrap();
    assert_eq!(frame.steps[0], FrameStep::CreateView { format: TextureFormat::Bgra8UnormSrgb });
    assert_eq!(frame.steps.len(), 5);
}

#[test]
fn rendered_frame_presents_its_image_once() {
    let mut state = context(800, 600);
    let frame = state.render(Ok::<&str, SurfaceError>("image")).unwrap();
    assert_eq!(frame.target, "image");
    let presents = frame.steps.iter().filter(|step| **step == FrameStep::Present).count();
    assert_eq!(presents, 1);
    assert_eq!(frame.steps.last(), Some(&FrameStep::Present));
}

#[test]
fn resize_configures_for_the_new_size() {
    let mut state = context(800, 600);
    let new_size = PhysicalSize::new(400, 300);
    let config = state.resize(new_size).expect("a size with an area is configured");
    assert_eq!(config.width, 400);
    assert_eq!(config.height, 300);
    assert_eq!(config, surface_configuration(new_size, TextureFormat::Bgra8Unorm));
    assert_eq!(state.size(), new_size);
    assert!(state.is_configured());
    assert_eq!(state.surface_format(), TextureFormat::Bgra8Unorm);
    assert_eq!(*state.get_window(), "window");
}

#[test]
fn frame_after_resize_has_the_new_size() {
    let mut state = context(800, 600);
    state.resize(PhysicalSize::new(400, 300));
    let frame = state.render(Ok::<u32, SurfaceError>(2)).unwrap();
    assert_eq!(frame.extent, PhysicalSize::new(400, 300));
    state.resize(PhysicalSize::new(1920, 1080));
    state.resize(PhysicalSize::new(1280, 720));
    let frame = state.render(Ok::<u32, SurfaceError>(3)).unwrap();
    assert_eq!(frame.extent, PhysicalSize::new(1280, 720));
}

#[test]
fn resize_to_the_same_size_configures_again() {
    let mut state = context(800, 600);
    let config = state.resize(PhysicalSize::new(800, 600));
    assert_eq!(config, Some(surface_configuration(PhysicalSize::new(800, 600), FORMATS[0])));
    assert!(state.is_configured());
}

#[test]
fn resize_to_no_area_configures_nothing() {
    for size in [PhysicalSize::new(0, 0), PhysicalSize::new(0, 300), PhysicalSize::new(400, 0)] {
        let mut state = context(800, 600);
        assert_eq!(state.resize(size), None);
        assert_eq!(state.size(), size);
        assert!(!state.is_configured());
    }
}

#[test]
fn resize_back_from_no_area_configures_again() {
    let mut state = context(800, 600);
    state.resize(PhysicalSize::new(0, 0));
    assert!(!state.is_configured());
    let config = state.resize(PhysicalSize::new(640, 480)).unwrap();
    assert_eq!((config.width, config.height), (640, 480));
    assert!(state.is_configured());
    let frame = state.render(Ok::<u32, SurfaceError>(4)).unwrap();
    assert_eq!(frame.extent, PhysicalSize::new(640, 480));
}

#[test]
fn configure_twice_is_configure_once() {
    let mut once = context(800, 600);
    let mut twice = context(800, 600);
    let first = once.configure_surface();
    twice.configure_surface();
    let second = twice.configure_surface();
    assert_eq!(first, second);
    assert_eq!(first, surface_configuration(PhysicalSize::new(800, 600), FORMATS[0]));
    assert_eq!(once.size(), twice.size());
    assert_eq!(once.surface_format(), twice.surface_format());
    assert_eq!(once.is_configured(), twice.is_configured());
    let a = once.render(Ok::<u32, SurfaceError>(8));
    let b = twice.render(Ok::<u32, SurfaceError>(8));
    assert_eq!(a, b);
}

#[test]
fn refusal_is_returned_with_its_reason() {
    let reasons = [
        (SurfaceError::Timeout, AcquireError::Timeout),
        (SurfaceError::Outdated, AcquireError::Outdated),
        (SurfaceError::Lost, AcquireError::Lost),
        (SurfaceError::OutOfMemory, AcquireError::OutOfMemory),
        (SurfaceError::Other, AcquireError::Other),
    ];
    for (reason, error) in reasons {
        let mut state = context(800, 600);
        assert_eq!(state.render(Err::<u32, SurfaceError>(reason)), Err(error));
        assert!(!state.is_configured());
        assert_eq!(state.size(), PhysicalSize::new(800, 600));
    }
}

#[test]
fn outdated_surface_is_recovered_by_configuring() {
    let mut state = context(800, 600);
    let refused = state.render(Err::<u32, SurfaceError>(SurfaceError::Outdated));
    assert_eq!(refused, Err(AcquireError::Outdated));
    assert!(!state.is_configured());
    let config = state.configure_surface();
    assert_eq!(config, surface_configuration(PhysicalSize::new(800, 600), FORMATS[0]));
    assert!(state.is_configured());
    let frame = state.render(Ok::<u32, SurfaceError>(5)).expect("the next frame is rendered");
    assert_eq!(frame.target, 5);
    assert_eq!(frame.extent, PhysicalSize::new(800, 600));
}
