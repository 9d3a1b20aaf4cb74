//! What a frame is made of: the steps that the renderer asks for, the answers it gets, and how
//! far a frame has come.

use vstd::prelude::*;

use crate::camera::{Camera, Extent};
use crate::pressure::CellRange;
use crate::setup::PixelFormat;

verus! {

/// The objects of the graphics API that pass through the renderer. It keeps them and hands them
/// back, and never looks inside.
pub trait Backend: Sized {
    /// The chain of images that are shown in the window.
    type Swapchain;

    /// One image of the swapchain.
    type Image;

    /// The depth buffer that all framebuffers share.
    type DepthBuffer;

    /// An image of the swapchain together with the depth buffer, to draw into.
    type Framebuffer;

    /// The promise that an acquired image becomes ready to be drawn into.
    type Acquired;

    /// The recorded commands of a frame.
    type Commands;

    /// The work that the GPU has not finished yet.
    type InFlight;

    /// The projection and view matrix.
    type Matrix;

    /// A reading of a clock.
    type Instant;

    /// Why a step failed.
    type Error;
}

/// The swapchain to create: images of the given size and format, to be drawn into.
#[derive(Clone, Copy, Debug, PartialEq, Eq, Structural)]
pub struct SwapchainRequest {
    pub extent: Extent,
    pub format: PixelFormat,
}

/// What to record for a frame.
#[derive(Clone, Copy, Debug, PartialEq, Eq)]
pub struct DrawPlan {
    /// The position of the framebuffer to draw into.
    pub framebuffer: usize,
    /// The value of the compute shader's uniform.
    pub which_pressure_buffer: u32,
    /// The pressure cells to clear before the compute shader runs.
    pub pressure_dst_range: CellRange,
    /// The number of work groups to dispatch in each dimension.
    pub work_groups: (u32, u32, u32),
    /// The part of the image to draw to.
    pub viewport: Extent,
    pub vertex_count: u32,
    pub instance_count: u32,
    pub first_vertex: u32,
    pub first_instance: u32,
}

/// How far a frame has come: which step's answer is awaited, and what has been made so far.
pub enum Phase<G: Backend> {
    /// No frame is being made.
    Idle,
    CreatingSwapchain { extent: Extent },
    CreatingDepthBuffer { extent: Extent, swapchain: G::Swapchain, images: Vec<G::Image> },
    /// The framebuffers are made one after the other, in the order of the images.
    CreatingFramebuffers {
        extent: Extent,
        swapchain: G::Swapchain,
        images: Vec<G::Image>,
        depth_buffer: G::DepthBuffer,
        framebuffers: Vec<G::Framebuffer>,
    },
    BuildingMatrix {
        extent: Extent,
        swapchain: G::Swapchain,
        framebuffers: Vec<G::Framebuffer>,
    },
    Acquiring { extent: Extent, swapchain: G::Swapchain, framebuffers: Vec<G::Framebuffer> },
    Recording {
        swapchain: G::Swapchain,
        framebuffers: Vec<G::Framebuffer>,
        image: usize,
        suboptimal: bool,
        acquired: G::Acquired,
    },
    Submitting {
        swapchain: G::Swapchain,
        framebuffers: Vec<G::Framebuffer>,
        suboptimal: bool,
    },
    ReadingClock,
    Reporting,
}

/// The mathematical view of `Phase`.
#[verifier::ext_equal]
pub enum PhaseView<G: Backend> {
    Idle,
    CreatingSwapchain { extent: Extent },
    CreatingDepthBuffer { extent: Extent, swapchain: G::Swapchain, images: Seq<G::Image> },
    CreatingFramebuffers {
        extent: Extent,
        swapchain: G::Swapchain,
        images: Seq<G::Image>,
        depth_buffer: G::DepthBuffer,
        framebuffers: Seq<G::Framebuffer>,
    },
    BuildingMatrix {
        extent: Extent,
        swapchain: G::Swapchain,
        framebuffers: Seq<G::Framebuffer>,
    },
    Acquiring { extent: Extent, swapchain: G::Swapchain, framebuffers: Seq<G::Framebuffer> },
    Recording {
        swapchain: G::Swapchain,
        framebuffers: Seq<G::Framebuffer>,
        image: usize,
        suboptimal: bool,
        acquired: G::Acquired,
    },
    Submitting {
        swapchain: G::Swapchain,
        framebuffers: Seq<G::Framebuffer>,
        suboptimal: bool,
    },
    ReadingClock,
    Reporting,
}

impl<G: Backend> View for Phase<G> {
    type V = PhaseView<G>;

    open spec fn view(&self) -> PhaseView<G> {
        match *self {
            Phase::Idle => PhaseView::Idle,
            Phase::CreatingSwapchain { extent } => PhaseView::CreatingSwapchain { extent },
            Phase::CreatingDepthBuffer { extent, swapchain, images } => {
                PhaseView::CreatingDepthBuffer { extent, swapchain, images: images@ }
            },
            Phase::CreatingFramebuffers {
                extent,
                swapchain,
                images,
                depth_buffer,
                framebuffers,
            } => PhaseView::CreatingFramebuffers {
                extent,
                swapchain,
                images: images@,
                depth_buffer,
                framebuffers: framebuffers@,
            },
            Phase::BuildingMatrix { extent, swapchain, framebuffers } => {
                PhaseView::BuildingMatrix { extent, swapchain, framebuffers: framebuffers@ }
            },
            Phase::Acquiring { extent, swapchain, framebuffers } => {
                PhaseView::Acquiring { extent, swapchain, framebuffers: framebuffers@ }
            },
            Phase::Recording { swapchain, framebuffers, image, suboptimal, acquired } => {
                PhaseView::Recording {
                    swapchain,
                    framebuffers: framebuffers@,
                    image,
                    suboptimal,
                    acquired,
                }
            },
            Phase::Submitting { swapchain, framebuffers, suboptimal } => {
                PhaseView::Submitting { swapchain, framebuffers: framebuffers@, suboptimal }
            },
            Phase::ReadingClock => PhaseView::ReadingClock,
            Phase::Reporting => PhaseView::Reporting,
        }
    }
}

/// The next step of a frame, to be performed with the graphics API.
pub enum Action<G: Backend> {
    /// Create a swapchain from scratch.
    CreateSwapchain { request: SwapchainRequest },
    /// Create a swapchain in place of an old one.
    RecreateSwapchain { swapchain: G::Swapchain, request: SwapchainRequest },
    /// Create the depth buffer.
    CreateDepthBuffer { extent: Extent, format: PixelFormat },
    /// Create the framebuffer of the swapchain's image at this position.
    CreateFramebuffer { image: usize },
    /// Build the projection and view matrix.
    BuildMatrix { camera: Camera },
    /// Acquire the swapchain's next image.
    AcquireImage,
    /// Record the commands of the frame.
    Record { plan: DrawPlan },
    /// Once `previous` and `acquired` are done, execute the commands and present the image at
    /// this position.
    Submit {
        previous: Option<G::InFlight>,
        acquired: G::Acquired,
        commands: G::Commands,
        image: usize,
    },
    /// Read how many whole seconds have passed since the last report.
    ReadClock,
    /// Tell the user how many frames were shown since the last report.
    ReportFps { frames: u32 },
    /// The frame is over.
    Done,
    /// The frame is given up.
    Fail { error: G::Error },
}

/// What came of acquiring an image.
pub enum AcquireOutcome<G: Backend> {
    Acquired { image: usize, suboptimal: bool, acquired: G::Acquired },
    OutOfDate,
    Failed { error: G::Error },
}

/// What came of submitting a frame.
pub enum SubmitOutcome<G: Backend> {
    Flushed { inflight: G::InFlight },
    OutOfDate,
    Failed { error: G::Error },
}

/// The answer to an `Action`.
pub enum Event<G: Backend> {
    Swapchain(Result<(G::Swapchain, Vec<G::Image>), G::Error>),
    DepthBuffer(Result<G::DepthBuffer, G::Error>),
    Framebuffer(Result<G::Framebuffer, G::Error>),
    Matrix(G::Matrix),
    Acquire(AcquireOutcome<G>),
    Commands(Result<G::Commands, G::Error>),
    Submit(SubmitOutcome<G>),
    Elapsed { seconds: u64 },
    Reported { now: G::Instant },
}

/// The mathematical view of `Event`.
#[verifier::ext_equal]
pub enum EventView<G: Backend> {
    Swapchain(Result<(G::Swapchain, Seq<G::Image>), G::Error>),
    DepthBuffer(Result<G::DepthBuffer, G::Error>),
    Framebuffer(Result<G::Framebuffer, G::Error>),
    Matrix(G::Matrix),
    Acquire(AcquireOutcome<G>),
    Commands(Result<G::Commands, G::Error>),
    Submit(SubmitOutcome<G>),
    Elapsed { seconds: u64 },
    Reported { now: G::Instant },
}

impl<G: Backend> View for Event<G> {
    type V = EventView<G>;

    open spec fn view(&self) -> EventView<G> {
        match *self {
            Event::Swapchain(Ok((swapchain, images))) => {
                EventView::Swapchain(Ok((swapchain, images@)))
            },
            Event::Swapchain(Err(error)) => EventView::Swapchain(Err(error)),
            Event::DepthBuffer(result) => EventView::DepthBuffer(result),
            Event::Framebuffer(result) => EventView::Framebuffer(result),
            Event::Matrix(matrix) => EventView::Matrix(matrix),
            Event::Acquire(outcome) => EventView::Acquire(outcome),
            Event::Commands(result) => EventView::Commands(result),
            Event::Submit(outcome) => EventView::Submit(outcome),
            Event::Elapsed { seconds } => EventView::Elapsed { seconds },
            Event::Reported { now } => EventView::Reported { now },
        }
    }
}

} // verus!
