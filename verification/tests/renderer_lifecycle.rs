use surface_renderer::backend::SurfaceFailure;
use surface_renderer::bridge::{create_renderer, create_world, render};
use surface_renderer::config::TextureUsage;
use surface_renderer::frame::{ClearColor, FrameStep, LoadOp, RenderPass, StoreOp};
use surface_renderer::negotiate::{begin, Acquired, SurfaceCapabilities};
use surface_renderer::renderer::Renderer;
use surface_renderer::world::World;
use wgpu::{CompositeAlphaMode, PresentMode, TextureFormat};

fn acquired(width: u32, height: u32) -> Acquired {
    let bound: Result<(), wgpu::CreateSurfaceError> = Ok(());
    let granted: Result<(), wgpu::RequestDeviceError> = Ok(());
    let (stage, ()) = begin().bound(width, height, bound).unwrap();
    let (stage, ()) = stage.resolved(Some(())).unwrap();
    let (stage, ()) = stage.granted(granted).unwrap();
    stage
}

fn capabilities() -> SurfaceCapabilities {
    SurfaceCapabilities {
        formats: vec![TextureFormat::Bgra8Unorm, TextureFormat::Bgra8UnormSrgb],
        present_modes: vec![PresentMode::Fifo],
        alpha_modes: vec![CompositeAlphaMode::Opaque],
    }
}

fn renderer(width: u32, height: u32) -> Renderer {
    Renderer::new(acquired(width, height), &capabilities())
}

fn whole_frame() -> Vec<FrameStep> {
    vec![
        FrameStep::CreateView,
        FrameStep::Encode(RenderPass {
            load: LoadOp::Clear(ClearColor { red: 9, green: 2, blue: 3, alpha: 10 }),
            store: StoreOp::Store,
            depth_stencil: false,
            occlusion_queries: false,
            timestamp_writes: false,
        }),
        FrameStep::Submit,
        FrameStep::Present,
    ]
}

#[test]
fn new_records_the_canvas_size() {
    let renderer = renderer(800, 600);
    assert_eq!(renderer.size(), (800, 600));
    assert_eq!(renderer.configuration().width, 800);
    assert_eq!(renderer.configuration().height, 600);
}

#[test]
fn new_starts_from_the_negotiated_configuration() {
    let renderer = renderer(320, 200);
    let config = renderer.configuration();
    assert_eq!(config.format, TextureFormat::Bgra8UnormSrgb);
    assert_eq!(config.present_mode, PresentMode::Fifo);
    assert_eq!(config.alpha_mode, CompositeAlphaMode::Opaque);
    assert_eq!(config.usage, TextureUsage::attachment());
    assert!(config.view_formats.is_empty());
    assert_eq!(config.desired_maximum_frame_latency, 2);
}

#[test]
fn new_accepts_an_empty_canvas() {
    let renderer = renderer(0, 0);
    assert_eq!(renderer.size(), (0, 0));
    assert_eq!((renderer.configuration().width, renderer.configuration().height), (0, 0));
}

#[test]
fn resize_to_a_positive_size_is_applied() {
    let mut renderer = renderer(800, 600);
    assert!(renderer.resize(1024, 768));
    assert_eq!(renderer.size(), (1024, 768));
    assert_eq!(renderer.configuration().width, 1024);
    assert_eq!(renderer.configuration().height, 768);
}

#[test]
fn resize_changes_nothing_but_the_size() {
    let mut renderer = renderer(800, 600);
    assert!(renderer.resize(1, 4096));
    let config = renderer.configuration();
    assert_eq!((config.width, config.height), (1, 4096));
    assert_eq!(config.format, TextureFormat::Bgra8UnormSrgb);
    assert_eq!(config.present_mode, PresentMode::Fifo);
    assert_eq!(config.alpha_mode, CompositeAlphaMode::Opaque);
    assert_eq!(config.usage, TextureUsage::attachment());
    assert!(config.view_formats.is_empty());
    assert_eq!(config.desired_maximum_frame_latency, 2);
}

#[test]
fn resize_to_the_largest_size_is_applied() {
    let mut renderer = renderer(800, 600);
    assert!(renderer.resize(u32::MAX, u32::MAX));
    assert_eq!(renderer.size(), (u32::MAX, u32::MAX));
}

#[test]
fn resize_with_zero_width_is_ignored() {
    let mut renderer = renderer(800, 600);
    assert!(!renderer.resize(0, 480));
    assert_eq!(renderer.size(), (800, 600));
    assert_eq!((renderer.configuration().width, renderer.configuration().height), (800, 600));
}

#[test]
fn resize_with_zero_height_is_ignored() {
    let mut renderer = renderer(800, 600);
    assert!(!renderer.resize(640, 0));
    assert_eq!(renderer.size(), (800, 600));
    assert_eq!((renderer.configuration().width, renderer.configuration().height), (800, 600));
}

#[test]
fn resize_with_both_zero_is_ignored_again_and_again() {
    let mut renderer = renderer(800, 600);
    assert!(!renderer.resize(0, 0));
    assert!(!renderer.resize(0, 0));
    assert_eq!(renderer.size(), (800, 600));
    assert_eq!((renderer.configuration().width, renderer.configuration().height), (800, 600));
}

#[test]
fn size_follows_the_last_applied_resize() {
    let mut renderer = renderer(800, 600);
    assert!(renderer.resize(100, 200));
    assert!(renderer.resize(300, 400));
    assert!(!renderer.resize(0, 500));
    assert_eq!(renderer.size(), (300, 400));
    assert_eq!((renderer.configuration().width, renderer.configuration().height), (300, 400));
}

#[test]
fn fresh_renderer_renders_a_whole_frame() {
    let renderer = renderer(800, 600);
    let steps = renderer.render(&World::new(), Ok(())).unwrap().1;
    assert_eq!(steps, whole_frame());
    assert_eq!(steps.iter().filter(|step| **step == FrameStep::Submit).count(), 1);
    assert_eq!(steps.iter().filter(|step| **step == FrameStep::Present).count(), 1);
}

#[test]
fn every_kind_of_failure_is_a_render_error_without_steps() {
    let renderer = renderer(800, 600);
    let world = World::new();
    let failures = vec![
        SurfaceFailure::Timeout,
        SurfaceFailure::Outdated,
        SurfaceFailure::Lost,
        SurfaceFailure::OutOfMemory,
    ];
    for failure in failures {
        let error = renderer.render::<()>(&world, Err(failure)).unwrap_err();
        assert!(error.message().starts_with("Surface error while rendering: "));
        assert!(error.message().len() > "Surface error while rendering: ".len());
    }
}

#[test]
fn lost_surface_fails_the_frame() {
    let error =
        renderer(1, 1).render::<()>(&World::new(), Err(SurfaceFailure::Lost)).unwrap_err();
    assert_eq!(
        error.message(),
        "Surface error while rendering: The swap chain has been lost and needs to be recreated"
    );
}

#[test]
fn acquired_texture_is_handed_back_with_the_steps() {
    let renderer = renderer(800, 600);
    let (texture, steps) = renderer.render(&World::new(), Ok(41u64)).unwrap();
    assert_eq!(texture, 41);
    assert_eq!(steps, whole_frame());
}

#[test]
fn repeated_renders_are_independent() {
    let renderer = renderer(800, 600);
    let world = World::new();
    let first = renderer.render(&world, Ok(())).unwrap().1;
    let failed = renderer.render::<()>(&world, Err(SurfaceFailure::Timeout));
    let second = renderer.render(&world, Ok(())).unwrap().1;
    assert!(failed.is_err());
    assert_eq!(first, second);
    assert_eq!(renderer.size(), (800, 600));
}

#[test]
fn canvas_of_800_by_600_through_resize_and_render() {
    let mut renderer = renderer(800, 600);
    assert_eq!((renderer.configuration().width, renderer.configuration().height), (800, 600));

    assert!(!renderer.resize(0, 480));
    assert_eq!((renderer.configuration().width, renderer.configuration().height), (800, 600));
    assert_eq!(renderer.size(), (800, 600));

    assert!(renderer.resize(1024, 768));
    assert_eq!((renderer.configuration().width, renderer.configuration().height), (1024, 768));
    assert_eq!(renderer.size(), (1024, 768));

    let steps = renderer.render(&World::new(), Ok(())).unwrap().1;
    let passes: Vec<&FrameStep> =
        steps.iter().filter(|step| matches!(step, FrameStep::Encode(_))).collect();
    assert_eq!(passes.len(), 1);
    match passes[0] {
        FrameStep::Encode(pass) => {
            let color = match pass.load {
                LoadOp::Clear(color) => color,
                LoadOp::Load => panic!("the pass clears its attachment"),
            };
            assert_eq!(
                (
                    f64::from(color.red) / 10.0,
                    f64::from(color.green) / 10.0,
                    f64::from(color.blue) / 10.0,
                    f64::from(color.alpha) / 10.0,
                ),
                (0.9, 0.2, 0.3, 1.0)
            );
        }
        _ => unreachable!(),
    }
}

#[test]
fn outdated_surface_fails_the_frame_and_leaves_the_renderer_usable() {
    let mut renderer = renderer(800, 600);
    let world = World::new();
    let error = renderer.render::<()>(&world, Err(SurfaceFailure::Outdated)).unwrap_err();
    assert_eq!(
        error.message(),
        "Surface error while rendering: The underlying surface has changed, and therefore the swap chain must be updated"
    );
    assert_eq!(renderer.size(), (800, 600));

    assert!(renderer.resize(800, 600));
    assert_eq!(renderer.render(&world, Ok(())).unwrap().1, whole_frame());
}

#[test]
fn entry_points_forward_to_the_renderer() {
    let renderer = create_renderer(acquired(800, 600), &capabilities());
    assert_eq!(renderer.size(), (800, 600));
    assert_eq!(renderer.configuration().format, TextureFormat::Bgra8UnormSrgb);
    let world = create_world();
    assert_eq!(world, World::new());
    assert_eq!(render(&renderer, &world, Ok("texture")).unwrap(), ("texture", whole_frame()));
    assert!(render::<()>(&renderer, &world, Err(SurfaceFailure::Lost)).is_err());
}
