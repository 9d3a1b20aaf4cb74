//! The renderer: what it remembers from one frame to the next, and what it does step by step.

use vstd::prelude::*;

use crate::camera::{Camera, Extent};
use crate::frame::{
    AcquireOutcome, Action, Backend, DrawPlan, Event, EventView, Phase, PhaseView, SubmitOutcome,
    SwapchainRequest,
};
use crate::framebuffers::{Framebuffers, FramebuffersView};
use crate::particles::{command_count, vertex_count, work_groups, WORK_GROUP_SIZE};
use crate::pressure::{
    destination_half, flag_uniform, grid_fits, pressure_dst_range, which_pressure_buffer_uniform,
};
use crate::setup::{PixelFormat, SetupPlan};

verus! {

/// The state of the simulation's display.
///
/// A frame begins with `render` and goes on with one `advance` for each answer, until the action
/// is `Done` or `Fail`.
pub struct Renderer<G: Backend> {
    color_format: PixelFormat,
    depth_format: PixelFormat,
    particles: u64,
    cells: u64,
    framebuffers: Framebuffers<G::Swapchain, G::Framebuffer>,
    inflight: Option<G::InFlight>,
    matrix: G::Matrix,
    last_fps_print: G::Instant,
    frames: u32,
    which_pressure_buffer: bool,
    phase: Phase<G>,
}

/// The mathematical view of `Renderer`.
#[verifier::ext_equal]
pub struct RendererView<G: Backend> {
    /// The format of the swapchain's images.
    pub color_format: PixelFormat,
    /// The format of the depth buffer.
    pub depth_format: PixelFormat,
    /// The number of particles.
    pub particles: u64,
    /// The number of cells of the pressure grid.
    pub cells: u64,
    /// What there is to draw into. While a frame is made this is `NotCreated`: the frame has it.
    pub framebuffers: FramebuffersView<G::Swapchain, G::Framebuffer>,
    /// The GPU's unfinished work, which the next frame has to wait for.
    pub inflight: Option<G::InFlight>,
    /// The current projection and view matrix.
    pub matrix: G::Matrix,
    /// When the number of frames was last reported.
    pub last_fps_print: G::Instant,
    /// The number of frames shown since then.
    pub frames: u32,
    /// The flag that tells the compute shader which half of the pressure buffer is which.
    pub which_pressure_buffer: bool,
    /// How far the current frame has come.
    pub phase: PhaseView<G>,
}

/// What the window system tells the program.
#[derive(Clone, Copy, Debug, PartialEq, Eq, Structural)]
pub enum WindowInput {
    CloseRequested,
    Resized,
    /// All events have been handled and it is time to draw. `extent` is the window's size.
    RedrawEventsCleared { extent: Extent },
    Other,
}

/// What the program does next.
pub enum Reaction<G: Backend> {
    /// Wait for the next input.
    Continue,
    /// Leave the event loop.
    Exit,
    /// Make a frame; this is its first step.
    Frame { action: Action<G> },
}

impl<G: Backend> PhaseView<G> {
    /// A frame is being made and has not been presented yet.
    pub open spec fn before_present(self) -> bool {
        self !is Idle && self !is ReadingClock && self !is Reporting
    }
}

impl<G: Backend> RendererView<G> {
    /// What holds of every renderer.
    pub open spec fn wf(self) -> bool {
        &&& grid_fits(self.cells)
        &&& self.phase.before_present() ==> self.framebuffers is NotCreated
        &&& self.phase is ReadingClock || self.phase is Reporting ==> self.framebuffers
            !is NotCreated
        &&& self.phase matches PhaseView::CreatingFramebuffers { images, framebuffers, .. }
            ==> framebuffers.len() < images.len()
        &&& self.phase matches PhaseView::Recording { framebuffers, image, .. } ==> image
            < framebuffers.len()
        &&& self.phase is Submitting ==> self.inflight is None
    }

    /// A renderer before its first frame.
    pub open spec fn initial(
        plan: SetupPlan,
        inflight: G::InFlight,
        matrix: G::Matrix,
        now: G::Instant,
    ) -> Self {
        RendererView {
            color_format: plan.color_format,
            depth_format: plan.depth_format,
            particles: plan.points_buffer.len,
            cells: plan.cells,
            framebuffers: FramebuffersView::NotCreated,
            inflight: Some(inflight),
            matrix,
            last_fps_print: now,
            frames: 0,
            which_pressure_buffer: false,
            phase: PhaseView::Idle,
        }
    }

    /// After the window has been resized.
    pub open spec fn resized(self) -> Self {
        RendererView { framebuffers: self.framebuffers.invalidated(), ..self }
    }

    /// The swapchain to ask for when the window has the given size.
    pub open spec fn swapchain_request(self, extent: Extent) -> SwapchainRequest {
        SwapchainRequest { extent, format: self.color_format }
    }

    /// The beginning of a frame in a window of the given size: usable framebuffers are drawn
    /// into, otherwise a swapchain is created, in place of the old one if there is one.
    pub open spec fn begun(self, extent: Extent) -> (Self, Action<G>) {
        let (phase, action) = match self.framebuffers {
            FramebuffersView::Valid { swapchain, framebuffers } => (
                PhaseView::Acquiring { extent, swapchain, framebuffers },
                Action::AcquireImage,
            ),
            FramebuffersView::Invalid { swapchain } => (
                PhaseView::CreatingSwapchain { extent },
                Action::RecreateSwapchain { swapchain, request: self.swapchain_request(extent) },
            ),
            FramebuffersView::NotCreated => (
                PhaseView::CreatingSwapchain { extent },
                Action::CreateSwapchain { request: self.swapchain_request(extent) },
            ),
        };
        (RendererView { framebuffers: FramebuffersView::NotCreated, phase, ..self }, action)
    }

    /// The event answers the action that is awaited, names an image that has a framebuffer, and
    /// does not overflow the count of frames.
    pub open spec fn accepts(self, event: EventView<G>) -> bool {
        match (self.phase, event) {
            (PhaseView::CreatingSwapchain { .. }, EventView::Swapchain(_)) => true,
            (PhaseView::CreatingDepthBuffer { .. }, EventView::DepthBuffer(_)) => true,
            (PhaseView::CreatingFramebuffers { .. }, EventView::Framebuffer(_)) => true,
            (PhaseView::BuildingMatrix { .. }, EventView::Matrix(_)) => true,
            (PhaseView::Acquiring { framebuffers, .. }, EventView::Acquire(outcome)) => {
                outcome matches AcquireOutcome::Acquired { image, .. } ==> image
                    < framebuffers.len()
            },
            (PhaseView::Recording { .. }, EventView::Commands(_)) => true,
            (PhaseView::Submitting { .. }, EventView::Submit(_)) => true,
            (PhaseView::ReadingClock, EventView::Elapsed { .. }) => self.frames < u32::MAX,
            (PhaseView::Reporting, EventView::Reported { .. }) => true,
            _ => false,
        }
    }

    /// The frame goes on in another phase.
    pub open spec fn in_phase(self, phase: PhaseView<G>) -> Self {
        RendererView { phase, ..self }
    }

    /// The frame is given up. What it had taken is lost.
    pub open spec fn failed(self, error: G::Error) -> (Self, Action<G>) {
        (self.in_phase(PhaseView::Idle), Action::Fail { error })
    }

    /// The next framebuffer is made, or, when every image has one, the matrix.
    pub open spec fn with_framebuffers(
        self,
        extent: Extent,
        swapchain: G::Swapchain,
        images: Seq<G::Image>,
        depth_buffer: G::DepthBuffer,
        framebuffers: Seq<G::Framebuffer>,
    ) -> (Self, Action<G>) {
        if framebuffers.len() < images.len() {
            (
                self.in_phase(
                    PhaseView::CreatingFramebuffers {
                        extent,
                        swapchain,
                        images,
                        depth_buffer,
                        framebuffers,
                    },
                ),
                Action::CreateFramebuffer { image: framebuffers.len() as usize },
            )
        } else {
            (
                self.in_phase(PhaseView::BuildingMatrix { extent, swapchain, framebuffers }),
                Action::BuildMatrix { camera: Camera::spec_for_window(extent) },
            )
        }
    }

    /// What is recorded for a frame on the image at the given position.
    pub open spec fn draw_plan(self, image: usize, extent: Extent) -> DrawPlan {
        DrawPlan {
            framebuffer: image,
            which_pressure_buffer: flag_uniform(self.which_pressure_buffer),
            pressure_dst_range: destination_half(self.which_pressure_buffer, self.cells),
            work_groups: (command_count(self.particles) / WORK_GROUP_SIZE, 1, 1),
            viewport: extent,
            vertex_count: command_count(self.particles),
            instance_count: 1,
            first_vertex: 0,
            first_instance: 0,
        }
    }

    /// After the frame was submitted. A swapchain that does not fit the window well is kept to
    /// be recreated.
    pub open spec fn presented(
        self,
        swapchain: G::Swapchain,
        framebuffers: Seq<G::Framebuffer>,
        suboptimal: bool,
        inflight: Option<G::InFlight>,
    ) -> (Self, Action<G>) {
        (
            RendererView {
                framebuffers: if suboptimal {
                    FramebuffersView::Invalid { swapchain }
                } else {
                    FramebuffersView::Valid { swapchain, framebuffers }
                },
                inflight,
                phase: PhaseView::ReadingClock,
                ..self
            },
            Action::ReadClock,
        )
    }

    /// One step of a frame: what an answer changes, and what is to be done next.
    pub open spec fn next(self, event: EventView<G>) -> (Self, Action<G>)
        recommends
            self.accepts(event),
    {
        match (self.phase, event) {
            (PhaseView::CreatingSwapchain { extent }, EventView::Swapchain(result)) => match result {
                Ok((swapchain, images)) => (
                    self.in_phase(
                        PhaseView::CreatingDepthBuffer { extent, swapchain, images },
                    ),
                    Action::CreateDepthBuffer { extent, format: self.depth_format },
                ),
                Err(error) => self.failed(error),
            },
            (
                PhaseView::CreatingDepthBuffer { extent, swapchain, images },
                EventView::DepthBuffer(result),
            ) => match result {
                Ok(depth_buffer) => self.with_framebuffers(
                    extent,
                    swapchain,
                    images,
                    depth_buffer,
                    Seq::empty(),
                ),
                Err(error) => self.failed(error),
            },
            (
                PhaseView::CreatingFramebuffers {
                    extent,
                    swapchain,
                    images,
                    depth_buffer,
                    framebuffers,
                },
                EventView::Framebuffer(result),
            ) => match result {
                Ok(framebuffer) => self.with_framebuffers(
                    extent,
                    swapchain,
                    images,
                    depth_buffer,
                    framebuffers.push(framebuffer),
                ),
                Err(error) => self.failed(error),
            },
            (
                PhaseView::BuildingMatrix { extent, swapchain, framebuffers },
                EventView::Matrix(matrix),
            ) => (
                RendererView {
                    matrix,
                    phase: PhaseView::Acquiring { extent, swapchain, framebuffers },
                    ..self
                },
                Action::AcquireImage,
            ),
            (
                PhaseView::Acquiring { extent, swapchain, framebuffers },
                EventView::Acquire(outcome),
            ) => match outcome {
                AcquireOutcome::Acquired { image, suboptimal, acquired } => (
                    self.in_phase(
                        PhaseView::Recording {
                            swapchain,
                            framebuffers,
                            image,
                            suboptimal,
                            acquired,
                        },
                    ),
                    Action::Record { plan: self.draw_plan(image, extent) },
                ),
                AcquireOutcome::OutOfDate => (
                    RendererView {
                        framebuffers: FramebuffersView::Invalid { swapchain },
                        phase: PhaseView::Idle,
                        ..self
                    },
                    Action::Done,
                ),
                AcquireOutcome::Failed { error } => self.failed(error),
            },
            (
                PhaseView::Recording { swapchain, framebuffers, image, suboptimal, acquired },
                EventView::Commands(result),
            ) => match result {
                Ok(commands) => (
                    RendererView {
                        inflight: None,
                        phase: PhaseView::Submitting { swapchain, framebuffers, suboptimal },
                        ..self
                    },
                    Action::Submit { previous: self.inflight, acquired, commands, image },
                ),
                Err(error) => self.failed(error),
            },
            (
                PhaseView::Submitting { swapchain, framebuffers, suboptimal },
                EventView::Submit(outcome),
            ) => match outcome {
                SubmitOutcome::Flushed { inflight } => self.presented(
                    swapchain,
                    framebuffers,
                    suboptimal,
                    Some(inflight),
                ),
                SubmitOutcome::OutOfDate => self.presented(swapchain, framebuffers, true, None),
                SubmitOutcome::Failed { error } => self.failed(error),
            },
            (PhaseView::ReadingClock, EventView::Elapsed { seconds }) => {
                let counted = RendererView { frames: (self.frames + 1) as u32, ..self };
                if seconds >= 1 {
                    (
                        counted.in_phase(PhaseView::Reporting),
                        Action::ReportFps { frames: counted.frames },
                    )
                } else {
                    (counted.in_phase(PhaseView::Idle), Action::Done)
                }
            },
            (PhaseView::Reporting, EventView::Reported { now }) => (
                RendererView { last_fps_print: now, frames: 0, phase: PhaseView::Idle, ..self },
                Action::Done,
            ),
            _ => (self, Action::Done),
        }
    }

    /// What an input from the window system changes, and what is to be done next.
    pub open spec fn handled(self, input: WindowInput) -> (Self, Reaction<G>) {
        match input {
            WindowInput::CloseRequested => (self, Reaction::Exit),
            WindowInput::Resized => (self.resized(), Reaction::Continue),
            WindowInput::RedrawEventsCleared { extent } => {
                let (begun, action) = self.begun(extent);
                (begun, Reaction::Frame { action })
            },
            WindowInput::Other => (self, Reaction::Continue),
        }
    }
}

impl<G: Backend> View for Renderer<G> {
    type V = RendererView<G>;

    closed spec fn view(&self) -> RendererView<G> {
        RendererView {
            color_format: self.color_format,
            depth_format: self.depth_format,
            particles: self.particles,
            cells: self.cells,
            framebuffers: self.framebuffers@,
            inflight: self.inflight,
            matrix: self.matrix,
            last_fps_print: self.last_fps_print,
            frames: self.frames,
            which_pressure_buffer: self.which_pressure_buffer,
            phase: self.phase@,
        }
    }
}

impl<G: Backend> Renderer<G> {
    /// A renderer that has not shown anything yet. `inflight` is the upload of the buffers' first
    /// contents and `now` the current time.
    pub fn new(
        plan: &SetupPlan,
        inflight: G::InFlight,
        matrix: G::Matrix,
        now: G::Instant,
    ) -> (renderer: Self)
        requires
            grid_fits(plan.cells),
        ensures
            renderer@ == RendererView::<G>::initial(*plan, inflight, matrix, now),
            renderer@.wf(),
    {
        Renderer {
            color_format: plan.color_format,
            depth_format: plan.depth_format,
            particles: plan.points_buffer.len,
            cells: plan.cells,
            framebuffers: Framebuffers::NotCreated,
            inflight: Some(inflight),
            matrix,
            last_fps_print: now,
            frames: 0,
            which_pressure_buffer: false,
            phase: Phase::Idle,
        }
    }

    /// Notes that the window has a new size: the next frame recreates the swapchain.
    pub fn resize(&mut self)
        requires
            old(self)@.wf(),
        ensures
            final(self)@ == old(self)@.resized(),
            final(self)@.wf(),
    {
        self.framebuffers.invalidate()
    }

    /// Begins a frame in a window of the given size.
    pub fn render(&mut self, extent: Extent) -> (action: Action<G>)
        requires
            old(self)@.wf(),
            old(self)@.phase is Idle,
        ensures
            (final(self)@, action) == old(self)@.begun(extent),
            final(self)@.wf(),
    {
        let request = SwapchainRequest { extent, format: self.color_format };
        match self.framebuffers.take() {
            Framebuffers::Valid { swapchain, framebuffers } => {
                self.phase = Phase::Acquiring { extent, swapchain, framebuffers };
                Action::AcquireImage
            },
            Framebuffers::Invalid { swapchain } => {
                self.phase = Phase::CreatingSwapchain { extent };
                Action::RecreateSwapchain { swapchain, request }
            },
            Framebuffers::NotCreated => {
                self.phase = Phase::CreatingSwapchain { extent };
                Action::CreateSwapchain { request }
            },
        }
    }

    /// Whether the event may be handed to `advance` now.
    pub fn accepts(&self, event: &Event<G>) -> (accepted: bool)
        ensures
            accepted == self@.accepts(event@),
    {
        match (&self.phase, event) {
            (Phase::CreatingSwapchain { .. }, Event::Swapchain(_)) => true,
            (Phase::CreatingDepthBuffer { .. }, Event::DepthBuffer(_)) => true,
            (Phase::CreatingFramebuffers { .. }, Event::Framebuffer(_)) => true,
            (Phase::BuildingMatrix { .. }, Event::Matrix(_)) => true,
            (Phase::Acquiring { framebuffers, .. }, Event::Acquire(outcome)) => match outcome {
                AcquireOutcome::Acquired { image, .. } => *image < framebuffers.len(),
                _ => true,
            },
            (Phase::Recording { .. }, Event::Commands(_)) => true,
            (Phase::Submitting { .. }, Event::Submit(_)) => true,
            (Phase::ReadingClock, Event::Elapsed { .. }) => self.frames < u32::MAX,
            (Phase::Reporting, Event::Reported { .. }) => true,
            _ => false,
        }
    }

    /// Asks for the next framebuffer, or for the matrix once every image has a framebuffer.
    fn continue_framebuffers(
        &mut self,
        extent: Extent,
        swapchain: G::Swapchain,
        images: Vec<G::Image>,
        depth_buffer: G::DepthBuffer,
        framebuffers: Vec<G::Framebuffer>,
    ) -> (action: Action<G>)
        ensures
            (final(self)@, action) == old(self)@.with_framebuffers(
                extent,
                swapchain,
                images@,
                depth_buffer,
                framebuffers@,
            ),
    {
        let image: usize = framebuffers.len();
        if image < images.len() {
            self.phase = Phase::CreatingFramebuffers {
                extent,
                swapchain,
                images,
                depth_buffer,
                framebuffers,
            };
            Action::CreateFramebuffer { image }
        } else {
            self.phase = Phase::BuildingMatrix { extent, swapchain, framebuffers };
            Action::BuildMatrix { camera: Camera::for_window(extent) }
        }
    }

    /// Decides what to record for a frame on the image at the given position.
    fn plan_draw(&self, image: usize, extent: Extent) -> (plan: DrawPlan)
        requires
            self@.wf(),
        ensures
            plan == self@.draw_plan(image, extent),
    {
        DrawPlan {
            framebuffer: image,
            which_pressure_buffer: which_pressure_buffer_uniform(self.which_pressure_buffer),
            pressure_dst_range: pressure_dst_range(self.which_pressure_buffer, self.cells),
            work_groups: (work_groups(self.particles), 1, 1),
            viewport: extent,
            vertex_count: vertex_count(self.particles),
            instance_count: 1,
            first_vertex: 0,
            first_instance: 0,
        }
    }

    /// Takes up what is left of a frame that was submitted.
    fn finish_present(
        &mut self,
        swapchain: G::Swapchain,
        framebuffers: Vec<G::Framebuffer>,
        suboptimal: bool,
        inflight: Option<G::InFlight>,
    ) -> (action: Action<G>)
        ensures
            (final(self)@, action) == old(self)@.presented(
                swapchain,
                framebuffers@,
                suboptimal,
                inflight,
            ),
    {
        self.inflight = inflight;
        self.framebuffers = if suboptimal {
            Framebuffers::Invalid { swapchain }
        } else {
            Framebuffers::Valid { swapchain, framebuffers }
        };
        self.phase = Phase::ReadingClock;
        Action::ReadClock
    }

    /// Counts a frame that was shown, given the whole seconds since the last report.
    fn count_frame(&mut self, seconds: u64) -> (action: Action<G>)
        requires
            old(self)@.phase is ReadingClock,
            old(self)@.frames < u32::MAX,
        ensures
            (final(self)@, action) == old(self)@.next(EventView::Elapsed { seconds }),
    {
        self.frames = self.frames + 1;
        if seconds >= 1 {
            self.phase = Phase::Reporting;
            Action::ReportFps { frames: self.frames }
        } else {
            self.phase = Phase::Idle;
            Action::Done
        }
    }

    /// Takes the answer to the last action and decides on the next one.
    pub fn advance(&mut self, event: Event<G>) -> (action: Action<G>)
        requires
            old(self)@.wf(),
            old(self)@.accepts(event@),
        ensures
            (final(self)@, action) == old(self)@.next(event@),
            final(self)@.wf(),
    {
        if let Event::Elapsed { seconds } = event {
            return self.count_frame(seconds);
        }
        let mut phase: Phase<G> = Phase::Idle;
        std::mem::swap(&mut phase, &mut self.phase);
        match (phase, event) {
            (Phase::CreatingSwapchain { extent }, Event::Swapchain(result)) => match result {
                Ok((swapchain, images)) => {
                    self.phase = Phase::CreatingDepthBuffer { extent, swapchain, images };
                    Action::CreateDepthBuffer { extent, format: self.depth_format }
                },
                Err(error) => Action::Fail { error },
            },
            (
                Phase::CreatingDepthBuffer { extent, swapchain, images },
                Event::DepthBuffer(result),
            ) => match result {
                Ok(depth_buffer) => {
                    let framebuffers: Vec<G::Framebuffer> = Vec::new();
                    self.continue_framebuffers(
                        extent,
                        swapchain,
                        images,
                        depth_buffer,
                        framebuffers,
                    )
                },
                Err(error) => Action::Fail { error },
            },
            (
                Phase::CreatingFramebuffers {
                    extent,
                    swapchain,
                    images,
                    depth_buffer,
                    framebuffers,
                },
                Event::Framebuffer(result),
            ) => match result {
                Ok(framebuffer) => {
                    let mut framebuffers = framebuffers;
                    framebuffers.push(framebuffer);
                    self.continue_framebuffers(
                        extent,
                        swapchain,
                        images,
                        depth_buffer,
                        framebuffers,
                    )
                },
                Err(error) => Action::Fail { error },
            },
            (Phase::BuildingMatrix { extent, swapchain, framebuffers }, Event::Matrix(matrix)) => {
                self.matrix = matrix;
                self.phase = Phase::Acquiring { extent, swapchain, framebuffers };
                Action::AcquireImage
            },
            (
                Phase::Acquiring { extent, swapchain, framebuffers },
                Event::Acquire(outcome),
            ) => match outcome {
                AcquireOutcome::Acquired { image, suboptimal, acquired } => {
                    let plan = self.plan_draw(image, extent);
                    self.phase = Phase::Recording {
                        swapchain,
                        framebuffers,
                        image,
                        suboptimal,
                        acquired,
                    };
                    Action::Record { plan }
                },
                AcquireOutcome::OutOfDate => {
                    self.framebuffers = Framebuffers::Invalid { swapchain };
                    Action::Done
                },
                AcquireOutcome::Failed { error } => Action::Fail { error },
            },
            (
                Phase::Recording { swapchain, framebuffers, image, suboptimal, acquired },
                Event::Commands(result),
            ) => match result {
                Ok(commands) => {
                    let previous = self.inflight.take();
                    self.phase = Phase::Submitting { swapchain, framebuffers, suboptimal };
                    Action::Submit { previous, acquired, commands, image }
                },
                Err(error) => Action::Fail { error },
            },
            (
                Phase::Submitting { swapchain, framebuffers, suboptimal },
                Event::Submit(outcome),
            ) => match outcome {
                SubmitOutcome::Flushed { inflight } => self.finish_present(
                    swapchain,
                    framebuffers,
                    suboptimal,
                    Some(inflight),
                ),
                SubmitOutcome::OutOfDate => self.finish_present(
                    swapchain,
                    framebuffers,
                    true,
                    None,
                ),
                SubmitOutcome::Failed { error } => Action::Fail { error },
            },
            (Phase::Reporting, Event::Reported { now }) => {
                self.last_fps_print = now;
                self.frames = 0;
                Action::Done
            },
            _ => vstd::pervasive::unreached(),
        }
    }

    /// Takes an input from the window system and decides what the program does.
    pub fn handle(&mut self, input: WindowInput) -> (reaction: Reaction<G>)
        requires
            old(self)@.wf(),
            input is RedrawEventsCleared ==> old(self)@.phase is Idle,
        ensures
            (final(self)@, reaction) == old(self)@.handled(input),
            final(self)@.wf(),
    {
        match input {
            WindowInput::CloseRequested => Reaction::Exit,
            WindowInput::Resized => {
                self.resize();
                Reaction::Continue
            },
            WindowInput::RedrawEventsCleared { extent } => {
                let action = self.render(extent);
                Reaction::Frame { action }
            },
            WindowInput::Other => Reaction::Continue,
        }
    }

    /// How far the current frame has come, and what it has made so far.
    pub fn phase(&self) -> (phase: &Phase<G>)
        ensures
            phase@ == self@.phase,
    {
        &self.phase
    }

    /// The current projection and view matrix.
    pub fn matrix(&self) -> (matrix: &G::Matrix)
        ensures
            *matrix == self@.matrix,
    {
        &self.matrix
    }

    /// When the number of frames was last reported.
    pub fn last_fps_print(&self) -> (instant: &G::Instant)
        ensures
            *instant == self@.last_fps_print,
    {
        &self.last_fps_print
    }
}

} // verus!
