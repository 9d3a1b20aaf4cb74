use particles::camera::{Camera, Extent};
use particles::frame::{
    AcquireOutcome, Action, Backend, DrawPlan, Event, Phase, SubmitOutcome, SwapchainRequest,
};
use particles::framebuffers::Framebuffers;
use particles::pressure::CellRange;
use particles::renderer::{Reaction, Renderer, WindowInput};
use particles::setup::{plan_setup, ColorSpace, PixelFormat, SurfaceFormat};

struct Numbers;

impl Backend for Numbers {
    type Swapchain = u32;
    type Image = u32;
    type DepthBuffer = u32;
    type Framebuffer = u32;
    type Acquired = u32;
    type Commands = u32;
    type InFlight = u32;
    type Matrix = u32;
    type Instant = u32;
    type Error = &'static str;
}

const EXTENT: Extent = Extent { width: 640, height: 480 };
const REQUEST: SwapchainRequest =
    SwapchainRequest { extent: EXTENT, format: PixelFormat::R8G8B8A8Unorm };

fn renderer() -> Renderer<Numbers> {
    let formats = vec![SurfaceFormat {
        format: PixelFormat::R8G8B8A8Unorm,
        color_space: ColorSpace::SrgbNonLinear,
    }];
    let plan = plan_setup(&formats, 500).ok().unwrap();
    Renderer::new(&plan, 1, 2, 3)
}

fn advance(renderer: &mut Renderer<Numbers>, event: Event<Numbers>) -> Action<Numbers> {
    assert!(renderer.accepts(&event));
    renderer.advance(event)
}

fn acquired(image: usize, suboptimal: bool) -> Event<Numbers> {
    Event::Acquire(AcquireOutcome::Acquired { image, suboptimal, acquired: 70 })
}

/// Makes a swapchain with two images and stops where one of them is to be acquired.
fn rebuild(renderer: &mut Renderer<Numbers>, swapchain: u32) {
    advance(renderer, Event::Swapchain(Ok((swapchain, vec![10, 11]))));
    advance(renderer, Event::DepthBuffer(Ok(20)));
    advance(renderer, Event::Framebuffer(Ok(30)));
    advance(renderer, Event::Framebuffer(Ok(31)));
    let action = advance(renderer, Event::Matrix(40));
    assert!(matches!(action, Action::AcquireImage));
}

/// Draws and ends the frame, with no report.
fn draw(renderer: &mut Renderer<Numbers>, suboptimal: bool, outcome: SubmitOutcome<Numbers>) {
    advance(renderer, acquired(0, suboptimal));
    advance(renderer, Event::Commands(Ok(80)));
    advance(renderer, Event::Submit(outcome));
    let action = advance(renderer, Event::Elapsed { seconds: 0 });
    assert!(matches!(action, Action::Done));
}

fn flushed() -> SubmitOutcome<Numbers> {
    SubmitOutcome::Flushed { inflight: 90 }
}

#[test]
fn invalidating_keeps_the_swapchain() {
    let mut framebuffers: Framebuffers<u32, u32> = Framebuffers::default();
    assert!(matches!(framebuffers, Framebuffers::NotCreated));
    framebuffers.invalidate();
    assert!(matches!(framebuffers, Framebuffers::NotCreated));

    framebuffers = Framebuffers::Valid { swapchain: 7, framebuffers: vec![1, 2] };
    framebuffers.invalidate();
    assert!(matches!(framebuffers, Framebuffers::Invalid { swapchain: 7 }));
    framebuffers.invalidate();
    assert!(matches!(framebuffers, Framebuffers::Invalid { swapchain: 7 }));
}

#[test]
fn first_frame_sets_everything_up() {
    let mut renderer = renderer();
    let action = renderer.render(EXTENT);
    assert!(matches!(action, Action::CreateSwapchain { request } if request == REQUEST));
    let action = advance(&mut renderer, Event::Swapchain(Ok((5, vec![10, 11]))));
    assert!(matches!(action, Action::CreateDepthBuffer { extent, format }
        if extent == EXTENT && format == PixelFormat::D16Unorm));
    let action = advance(&mut renderer, Event::DepthBuffer(Ok(20)));
    assert!(matches!(action, Action::CreateFramebuffer { image: 0 }));
    assert!(matches!(renderer.phase(), Phase::CreatingFramebuffers { images, depth_buffer: 20, .. }
        if *images == vec![10, 11]));
    let action = advance(&mut renderer, Event::Framebuffer(Ok(30)));
    assert!(matches!(action, Action::CreateFramebuffer { image: 1 }));
    let action = advance(&mut renderer, Event::Framebuffer(Ok(31)));
    assert!(matches!(action, Action::BuildMatrix { camera }
        if camera == Camera::for_window(EXTENT)));
    assert_eq!(*renderer.matrix(), 2);
    let action = advance(&mut renderer, Event::Matrix(40));
    assert!(matches!(action, Action::AcquireImage));
    assert_eq!(*renderer.matrix(), 40);
    assert!(matches!(renderer.phase(), Phase::Acquiring { swapchain: 5, framebuffers, .. }
        if *framebuffers == vec![30, 31]));

    let action = advance(&mut renderer, acquired(1, false));
    let expected = DrawPlan {
        framebuffer: 1,
        which_pressure_buffer: 0,
        pressure_dst_range: CellRange { start: 500, end: 1000 },
        work_groups: (31_250, 1, 1),
        viewport: EXTENT,
        vertex_count: 1_000_000,
        instance_count: 1,
        first_vertex: 0,
        first_instance: 0,
    };
    assert!(matches!(action, Action::Record { plan } if plan == expected));
    let action = advance(&mut renderer, Event::Commands(Ok(80)));
    assert!(matches!(
        action,
        Action::Submit { previous: Some(1), acquired: 70, commands: 80, image: 1 }
    ));
    let action = advance(&mut renderer, Event::Submit(flushed()));
    assert!(matches!(action, Action::ReadClock));
    let action = advance(&mut renderer, Event::Elapsed { seconds: 0 });
    assert!(matches!(action, Action::Done));
}

#[test]
fn later_frames_reuse_the_framebuffers() {
    let mut renderer = renderer();
    renderer.render(EXTENT);
    rebuild(&mut renderer, 5);
    draw(&mut renderer, false, flushed());
    let action = renderer.render(EXTENT);
    assert!(matches!(action, Action::AcquireImage));
    advance(&mut renderer, acquired(0, false));
    let action = advance(&mut renderer, Event::Commands(Ok(81)));
    assert!(matches!(action, Action::Submit { previous: Some(90), .. }));
    assert_eq!(*renderer.matrix(), 40);
}

#[test]
fn resize_recreates_the_swapchain() {
    let mut renderer = renderer();
    renderer.render(EXTENT);
    rebuild(&mut renderer, 5);
    draw(&mut renderer, false, flushed());
    renderer.resize();
    renderer.resize();
    let larger = Extent { width: 1280, height: 960 };
    let action = renderer.render(larger);
    assert!(matches!(action, Action::RecreateSwapchain { swapchain: 5, request }
        if request.extent == larger && request.format == PixelFormat::R8G8B8A8Unorm));
}

#[test]
fn resize_before_the_first_frame_changes_nothing() {
    let mut renderer = renderer();
    renderer.resize();
    assert!(matches!(renderer.render(EXTENT), Action::CreateSwapchain { .. }));
}

#[test]
fn out_of_date_image_is_retried() {
    let mut renderer = renderer();
    renderer.render(EXTENT);
    rebuild(&mut renderer, 5);
    let action = advance(&mut renderer, Event::Acquire(AcquireOutcome::OutOfDate));
    assert!(matches!(action, Action::Done));
    assert!(matches!(renderer.phase(), Phase::Idle));
    let action = renderer.render(EXTENT);
    assert!(matches!(action, Action::RecreateSwapchain { swapchain: 5, .. }));
    rebuild(&mut renderer, 6);
    advance(&mut renderer, acquired(0, false));
    let action = advance(&mut renderer, Event::Commands(Ok(80)));
    assert!(matches!(action, Action::Submit { previous: Some(1), .. }));
}

#[test]
fn suboptimal_swapchain_is_recreated() {
    let mut renderer = renderer();
    renderer.render(EXTENT);
    rebuild(&mut renderer, 5);
    draw(&mut renderer, true, flushed());
    let action = renderer.render(EXTENT);
    assert!(matches!(action, Action::RecreateSwapchain { swapchain: 5, .. }));
}

#[test]
fn swapchain_out_of_date_at_present_is_recreated() {
    let mut renderer = renderer();
    renderer.render(EXTENT);
    rebuild(&mut renderer, 5);
    draw(&mut renderer, false, SubmitOutcome::OutOfDate);
    let action = renderer.render(EXTENT);
    assert!(matches!(action, Action::RecreateSwapchain { swapchain: 5, .. }));
    rebuild(&mut renderer, 6);
    advance(&mut renderer, acquired(0, false));
    let action = advance(&mut renderer, Event::Commands(Ok(80)));
    assert!(matches!(action, Action::Submit { previous: None, .. }));
}

#[test]
fn swapchain_without_images_has_no_framebuffers() {
    let mut renderer = renderer();
    renderer.render(EXTENT);
    advance(&mut renderer, Event::Swapchain(Ok((5, vec![]))));
    let action = advance(&mut renderer, Event::DepthBuffer(Ok(20)));
    assert!(matches!(action, Action::BuildMatrix { .. }));
    advance(&mut renderer, Event::Matrix(40));
    assert!(!renderer.accepts(&acquired(0, false)));
}

#[test]
fn failures_end_the_frame_and_forget_the_swapchain() {
    fn check(renderer: &mut Renderer<Numbers>, event: Event<Numbers>) {
        let action = advance(renderer, event);
        assert!(matches!(action, Action::Fail { error: "lost" }));
        assert!(matches!(renderer.phase(), Phase::Idle));
        assert!(matches!(renderer.render(EXTENT), Action::CreateSwapchain { .. }));
    }
    let mut renderer = renderer();
    renderer.render(EXTENT);
    check(&mut renderer, Event::Swapchain(Err("lost")));
    advance(&mut renderer, Event::Swapchain(Ok((5, vec![10, 11]))));
    check(&mut renderer, Event::DepthBuffer(Err("lost")));
    advance(&mut renderer, Event::Swapchain(Ok((5, vec![10, 11]))));
    advance(&mut renderer, Event::DepthBuffer(Ok(20)));
    advance(&mut renderer, Event::Framebuffer(Ok(30)));
    check(&mut renderer, Event::Framebuffer(Err("lost")));
    rebuild(&mut renderer, 5);
    check(&mut renderer, Event::Acquire(AcquireOutcome::Failed { error: "lost" }));
    rebuild(&mut renderer, 5);
    advance(&mut renderer, acquired(0, false));
    check(&mut renderer, Event::Commands(Err("lost")));
    rebuild(&mut renderer, 5);
    advance(&mut renderer, acquired(0, false));
    advance(&mut renderer, Event::Commands(Ok(80)));
    check(&mut renderer, Event::Submit(SubmitOutcome::Failed { error: "lost" }));
}

/// The work that the next frame waits for.
fn awaited(renderer: &mut Renderer<Numbers>) -> Option<u32> {
    rebuild(renderer, 8);
    advance(renderer, acquired(0, false));
    match advance(renderer, Event::Commands(Ok(80))) {
        Action::Submit { previous, .. } => previous,
        _ => panic!("nothing to submit"),
    }
}

#[test]
fn failure_keeps_the_work_in_flight_until_it_is_submitted() {
    let mut renderer = renderer();
    renderer.render(EXTENT);
    advance(&mut renderer, Event::Swapchain(Err("lost")));
    renderer.render(EXTENT);
    rebuild(&mut renderer, 5);
    advance(&mut renderer, acquired(0, false));
    advance(&mut renderer, Event::Commands(Err("lost")));
    renderer.render(EXTENT);
    assert_eq!(awaited(&mut renderer), Some(1));
    advance(&mut renderer, Event::Submit(SubmitOutcome::Failed { error: "lost" }));
    renderer.render(EXTENT);
    assert_eq!(awaited(&mut renderer), None);
    assert_eq!(*renderer.last_fps_print(), 3);
}

#[test]
fn finished_frame_keeps_a_swapchain() {
    let mut renderer = renderer();
    renderer.render(EXTENT);
    rebuild(&mut renderer, 5);
    advance(&mut renderer, Event::Acquire(AcquireOutcome::OutOfDate));
    assert!(matches!(renderer.render(EXTENT), Action::RecreateSwapchain { swapchain: 5, .. }));
    rebuild(&mut renderer, 6);
    advance(&mut renderer, acquired(0, false));
    advance(&mut renderer, Event::Commands(Ok(80)));
    advance(&mut renderer, Event::Submit(SubmitOutcome::OutOfDate));
    advance(&mut renderer, Event::Elapsed { seconds: 4 });
    let action = advance(&mut renderer, Event::Reported { now: 9 });
    assert!(matches!(action, Action::Done));
    assert!(matches!(renderer.render(EXTENT), Action::RecreateSwapchain { swapchain: 6, .. }));
    rebuild(&mut renderer, 7);
    draw(&mut renderer, false, flushed());
    assert!(matches!(renderer.render(EXTENT), Action::AcquireImage));
}

#[test]
fn frames_are_reported_once_a_second() {
    let mut renderer = renderer();
    renderer.render(EXTENT);
    rebuild(&mut renderer, 5);
    draw(&mut renderer, false, flushed());
    for expected in [3, 2] {
        renderer.render(EXTENT);
        draw(&mut renderer, false, flushed());
        renderer.render(EXTENT);
        advance(&mut renderer, acquired(0, false));
        advance(&mut renderer, Event::Commands(Ok(80)));
        advance(&mut renderer, Event::Submit(flushed()));
        let action = advance(&mut renderer, Event::Elapsed { seconds: 1 });
        assert!(matches!(action, Action::ReportFps { frames } if frames == expected));
        let action = advance(&mut renderer, Event::Reported { now: 77 });
        assert!(matches!(action, Action::Done));
        assert_eq!(*renderer.last_fps_print(), 77);
    }
}

#[test]
fn every_frame_draws_the_same_work() {
    let mut renderer = renderer();
    let mut plans: Vec<DrawPlan> = Vec::new();
    for swapchain in [5, 6, 7] {
        renderer.resize();
        renderer.render(EXTENT);
        rebuild(&mut renderer, swapchain);
        match advance(&mut renderer, acquired(1, true)) {
            Action::Record { plan } => plans.push(plan),
            _ => panic!("nothing to record"),
        }
        advance(&mut renderer, Event::Commands(Ok(80)));
        advance(&mut renderer, Event::Submit(flushed()));
        advance(&mut renderer, Event::Elapsed { seconds: 0 });
    }
    assert_eq!(plans[0].which_pressure_buffer, 0);
    assert_eq!(plans[0], plans[1]);
    assert_eq!(plans[0], plans[2]);
}

#[test]
fn nothing_is_shown_until_there_is_a_swapchain() {
    let mut renderer = renderer();
    renderer.render(EXTENT);
    rebuild(&mut renderer, 5);
    draw(&mut renderer, false, flushed());
    renderer.resize();
    assert!(matches!(renderer.render(EXTENT), Action::RecreateSwapchain { swapchain: 5, .. }));
    for _ in 0..3 {
        advance(&mut renderer, Event::Swapchain(Err("lost")));
        renderer.resize();
        assert!(matches!(renderer.render(EXTENT), Action::CreateSwapchain { .. }));
        assert!(!renderer.accepts(&acquired(0, false)));
    }
    rebuild(&mut renderer, 6);
    assert!(renderer.accepts(&acquired(0, false)));
}

#[test]
fn answers_out_of_turn_are_not_accepted() {
    let mut renderer = renderer();
    assert!(!renderer.accepts(&Event::Swapchain(Ok((5, vec![])))));
    renderer.render(EXTENT);
    assert!(renderer.accepts(&Event::Swapchain(Err("lost"))));
    assert!(!renderer.accepts(&Event::DepthBuffer(Ok(20))));
    assert!(!renderer.accepts(&Event::Elapsed { seconds: 1 }));
    rebuild(&mut renderer, 5);
    assert!(renderer.accepts(&acquired(1, false)));
    assert!(!renderer.accepts(&acquired(2, false)));
}

#[test]
fn window_inputs() {
    let mut renderer = renderer();
    assert!(matches!(renderer.handle(WindowInput::Other), Reaction::Continue));
    assert!(matches!(renderer.handle(WindowInput::CloseRequested), Reaction::Exit));
    let redraw = WindowInput::RedrawEventsCleared { extent: EXTENT };
    let reaction = renderer.handle(redraw);
    assert!(matches!(reaction, Reaction::Frame { action: Action::CreateSwapchain { request } }
        if request == REQUEST));
    rebuild(&mut renderer, 5);
    draw(&mut renderer, false, flushed());
    assert!(matches!(renderer.handle(WindowInput::Resized), Reaction::Continue));
    let reaction = renderer.handle(redraw);
    assert!(matches!(
        reaction,
        Reaction::Frame { action: Action::RecreateSwapchain { swapchain: 5, .. } }
    ));
}
