//! What holds of the renderer over whole frames and over whole runs of the program.

use vstd::prelude::*;

use crate::camera::{Camera, Extent};
use crate::frame::{
    AcquireOutcome, Action, Backend, EventView, PhaseView, SubmitOutcome, SwapchainRequest,
};
use crate::framebuffers::FramebuffersView;
use crate::particles::is_lattice;
use crate::renderer::{Reaction, RendererView, WindowInput};
use crate::setup::{PixelFormat, SetupPlan};

verus! {

/// Anything that happens to a renderer.
pub enum Input<G: Backend> {
    /// The window system tells something.
    Window(WindowInput),
    /// A step of the current frame is answered.
    Answer(EventView<G>),
}

/// The input can happen in this state: a frame begins only when none is being made, and an
/// answer belongs to the step that is awaited.
pub open spec fn possible<G: Backend>(state: RendererView<G>, input: Input<G>) -> bool {
    match input {
        Input::Window(input) => input is RedrawEventsCleared ==> state.phase is Idle,
        Input::Answer(event) => state.accepts(event),
    }
}

/// The state after one input.
pub open spec fn after<G: Backend>(state: RendererView<G>, input: Input<G>) -> RendererView<G> {
    match input {
        Input::Window(input) => state.handled(input).0,
        Input::Answer(event) => state.next(event).0,
    }
}

/// The state after a sequence of inputs.
pub open spec fn after_all<G: Backend>(
    state: RendererView<G>,
    inputs: Seq<Input<G>>,
) -> RendererView<G>
    decreases inputs.len(),
{
    if inputs.len() == 0 {
        state
    } else {
        after(after_all(state, inputs.drop_last()), inputs.last())
    }
}

/// Each input of the sequence can happen when its turn comes.
pub open spec fn all_possible<G: Backend>(
    state: RendererView<G>,
    inputs: Seq<Input<G>>,
) -> bool
    decreases inputs.len(),
{
    inputs.len() == 0 || {
        &&& all_possible(state, inputs.drop_last())
        &&& possible(after_all(state, inputs.drop_last()), inputs.last())
    }
}

/// Whatever happens, a renderer stays well formed.
pub proof fn law_always_well_formed<G: Backend>(state: RendererView<G>, inputs: Seq<Input<G>>)
    requires
        state.wf(),
        all_possible(state, inputs),
    ensures
        after_all(state, inputs).wf(),
    decreases inputs.len(),
{
    if inputs.len() > 0 {
        law_always_well_formed(state, inputs.drop_last());
    }
}

/// Whatever happens, the formats, the number of particles, the pressure grid and the choice of
/// the pressure half stay as they were set up. So every frame clears the same half.
pub proof fn law_settings_never_change<G: Backend>(state: RendererView<G>, inputs: Seq<Input<G>>)
    requires
        all_possible(state, inputs),
    ensures
        ({
            let later = after_all(state, inputs);
            &&& later.color_format == state.color_format
            &&& later.depth_format == state.depth_format
            &&& later.particles == state.particles
            &&& later.cells == state.cells
            &&& later.which_pressure_buffer == state.which_pressure_buffer
            &&& forall|image: usize, extent: Extent| #[trigger]
                later.draw_plan(image, extent) == state.draw_plan(image, extent)
        }),
    decreases inputs.len(),
{
    if inputs.len() > 0 {
        law_settings_never_change(state, inputs.drop_last());
    }
}

/// The number of frames that were shown since the last report.
pub open spec fn shown_since_report<G: Backend>(inputs: Seq<Input<G>>) -> nat
    decreases inputs.len(),
{
    if inputs.len() == 0 {
        0
    } else {
        match inputs.last() {
            Input::Answer(EventView::Elapsed { .. }) => shown_since_report(inputs.drop_last()) + 1,
            Input::Answer(EventView::Reported { .. }) => 0,
            _ => shown_since_report(inputs.drop_last()),
        }
    }
}

/// Whatever has happened since the setup, the renderer's count is the number of frames shown
/// since the last report. So that is also the number that the next report gives.
pub proof fn law_frames_are_counted<G: Backend>(
    plan: SetupPlan,
    inflight: G::InFlight,
    matrix: G::Matrix,
    now: G::Instant,
    inputs: Seq<Input<G>>,
)
    requires
        all_possible(RendererView::<G>::initial(plan, inflight, matrix, now), inputs),
    ensures
        after_all(RendererView::<G>::initial(plan, inflight, matrix, now), inputs).frames
            == shown_since_report(inputs),
    decreases inputs.len(),
{
    if inputs.len() > 0 {
        law_frames_are_counted(plan, inflight, matrix, now, inputs.drop_last());
    }
}

/// A report gives the number of frames counted so far with the current one, it is made when and
/// only when at least a second has passed, and counting then starts anew.
pub proof fn law_report_once_a_second<G: Backend>(
    state: RendererView<G>,
    seconds: u64,
    now: G::Instant,
)
    requires
        state.phase is ReadingClock,
        state.accepts(EventView::Elapsed { seconds }),
    ensures
        ({
            let (counted, action) = state.next(EventView::Elapsed { seconds });
            if seconds == 0 {
                &&& action == Action::<G>::Done
                &&& counted.frames == state.frames + 1
                &&& counted.last_fps_print == state.last_fps_print
            } else {
                let (reported, last_action) = counted.next(EventView::Reported { now });
                &&& action == Action::<G>::ReportFps { frames: (state.frames + 1) as u32 }
                &&& counted.accepts(EventView::Reported { now })
                &&& last_action == Action::<G>::Done
                &&& reported.frames == 0
                &&& reported.last_fps_print == now
            }
        }),
{
}

/// How many kinds of steps can still follow in a frame.
pub open spec fn stages_left<G: Backend>(phase: PhaseView<G>) -> nat {
    match phase {
        PhaseView::Idle => 0,
        PhaseView::Reporting => 1,
        PhaseView::ReadingClock => 2,
        PhaseView::Submitting { .. } => 3,
        PhaseView::Recording { .. } => 4,
        PhaseView::Acquiring { .. } => 5,
        PhaseView::BuildingMatrix { .. } => 6,
        PhaseView::CreatingFramebuffers { .. } => 7,
        PhaseView::CreatingDepthBuffer { .. } => 8,
        PhaseView::CreatingSwapchain { .. } => 9,
    }
}

/// How many framebuffers are still to be made.
pub open spec fn framebuffers_left<G: Backend>(phase: PhaseView<G>) -> int {
    match phase {
        PhaseView::CreatingFramebuffers { images, framebuffers, .. } => images.len()
            - framebuffers.len(),
        _ => 0,
    }
}

/// Every frame comes to an end: each answer either brings it to a later kind of step or leaves
/// fewer framebuffers to be made.
pub proof fn law_every_answer_makes_progress<G: Backend>(
    state: RendererView<G>,
    event: EventView<G>,
)
    requires
        state.wf(),
        state.accepts(event),
    ensures
        ({
            let later = state.next(event).0.phase;
            ||| stages_left(later) < stages_left(state.phase)
            ||| stages_left(later) == stages_left(state.phase) && 0 <= framebuffers_left(later)
                < framebuffers_left(state.phase)
        }),
{
}

/// A frame is over exactly when the renderer says so, and only then can the next one begin.
pub proof fn law_frame_ends_when_told<G: Backend>(state: RendererView<G>, event: EventView<G>)
    requires
        state.accepts(event),
    ensures
        ({
            let (later, action) = state.next(event);
            later.phase is Idle <==> action is Done || action is Fail
        }),
{
}

/// After a resize the next frame never draws into the old framebuffers: it asks for a swapchain
/// of the window's new size, in place of the old one if there is one.
pub proof fn law_resize_forces_a_new_swapchain<G: Backend>(
    state: RendererView<G>,
    extent: Extent,
)
    ensures
        ({
            let (begun, action) = state.resized().begun(extent);
            &&& begun.phase == PhaseView::<G>::CreatingSwapchain { extent }
            &&& action == match state.framebuffers.swapchain() {
                Some(swapchain) => Action::<G>::RecreateSwapchain {
                    swapchain,
                    request: SwapchainRequest { extent, format: state.color_format },
                },
                None => Action::<G>::CreateSwapchain { request: SwapchainRequest { extent, format: state.color_format } },
            }
        }),
{
}

/// The input gives the renderer a new swapchain.
pub open spec fn gives_swapchain<G: Backend>(input: Input<G>) -> bool {
    input matches Input::Answer(EventView::Swapchain(Ok(_)))
}

/// Once the old framebuffers are gone, nothing is acquired, recorded or shown, whatever else
/// happens, until there is a new swapchain.
pub proof fn law_nothing_is_shown_without_a_new_swapchain<G: Backend>(
    state: RendererView<G>,
    inputs: Seq<Input<G>>,
)
    requires
        state.phase is Idle,
        state.framebuffers !is Valid,
        all_possible(state, inputs),
        forall|i: int| 0 <= i < inputs.len() ==> !gives_swapchain(#[trigger] inputs[i]),
    ensures
        ({
            let later = after_all(state, inputs);
            &&& later.phase is Idle || later.phase is CreatingSwapchain
            &&& later.framebuffers !is Valid
            &&& later.frames == state.frames
            &&& later.inflight == state.inflight
            &&& later.matrix == state.matrix
        }),
    decreases inputs.len(),
{
    if inputs.len() > 0 {
        let fewer = inputs.drop_last();
        assert forall|i: int| 0 <= i < fewer.len() implies !gives_swapchain(
            #[trigger] fewer[i],
        ) by {
            assert(fewer[i] == inputs[i]);
        }
        law_nothing_is_shown_without_a_new_swapchain(state, fewer);
        assert(!gives_swapchain(inputs[inputs.len() - 1]));
    }
}

/// Resizing twice is the same as resizing once.
pub proof fn law_resize_is_idempotent<G: Backend>(state: RendererView<G>)
    ensures
        state.resized().resized() == state.resized(),
{
}

/// Usable framebuffers are used again: the frame goes straight to acquiring an image, whatever
/// the window's size, and keeps the matrix.
pub proof fn law_valid_framebuffers_are_reused<G: Backend>(
    state: RendererView<G>,
    extent: Extent,
)
    requires
        state.framebuffers is Valid,
    ensures
        state.begun(extent).1 == Action::<G>::AcquireImage,
        state.begun(extent).0.phase == (PhaseView::<G>::Acquiring {
            extent,
            swapchain: state.framebuffers->Valid_swapchain,
            framebuffers: state.framebuffers->Valid_framebuffers,
        }),
        state.begun(extent).0.matrix == state.matrix,
{
}

/// The answers that give the framebuffers one after the other.
pub open spec fn framebuffer_answers<G: Backend>(framebuffers: Seq<G::Framebuffer>) -> Seq<
    Input<G>,
> {
    framebuffers.map_values(|framebuffer: G::Framebuffer|
        Input::Answer(EventView::<G>::Framebuffer(Ok(framebuffer))))
}

/// The framebuffers are made one for each image and in the order of the images: once some of
/// them have been made, they are kept in their order, and the next one is asked for the image at
/// the next position. When every image has its framebuffer, the matrix is built.
pub proof fn law_framebuffers_follow_the_images<G: Backend>(
    state: RendererView<G>,
    extent: Extent,
    swapchain: G::Swapchain,
    images: Seq<G::Image>,
    depth_buffer: G::DepthBuffer,
    framebuffers: Seq<G::Framebuffer>,
)
    requires
        state.phase == (PhaseView::<G>::CreatingDepthBuffer { extent, swapchain, images }),
        framebuffers.len() <= images.len(),
    ensures
        ({
            let started = state.next(EventView::DepthBuffer(Ok(depth_buffer))).0;
            &&& all_possible(started, framebuffer_answers(framebuffers))
            &&& after_all(started, framebuffer_answers(framebuffers)) == RendererView::<G> {
                phase: if framebuffers.len() < images.len() {
                    PhaseView::CreatingFramebuffers {
                        extent,
                        swapchain,
                        images,
                        depth_buffer,
                        framebuffers,
                    }
                } else {
                    PhaseView::BuildingMatrix { extent, swapchain, framebuffers }
                },
                ..state
            }
        }),
        last_action(state, depth_buffer, framebuffers) == if framebuffers.len() < images.len() {
            Action::<G>::CreateFramebuffer { image: framebuffers.len() as usize }
        } else {
            Action::<G>::BuildMatrix { camera: Camera::spec_for_window(extent) }
        },
    decreases framebuffers.len(),
{
    let answers = framebuffer_answers::<G>(framebuffers);
    if framebuffers.len() > 0 {
        let fewer = framebuffers.drop_last();
        law_framebuffers_follow_the_images(
            state,
            extent,
            swapchain,
            images,
            depth_buffer,
            fewer,
        );
        assert(answers.drop_last() =~= framebuffer_answers::<G>(fewer));
        assert(fewer.push(framebuffers.last()) =~= framebuffers);
    } else {
        assert(framebuffers =~= Seq::empty());
        assert(answers =~= Seq::empty());
    }
}

/// What is asked for after the depth buffer and the given framebuffers have been made.
pub open spec fn last_action<G: Backend>(
    state: RendererView<G>,
    depth_buffer: G::DepthBuffer,
    framebuffers: Seq<G::Framebuffer>,
) -> Action<G> {
    let (started, first_action) = state.next(EventView::DepthBuffer(Ok(depth_buffer)));
    if framebuffers.len() == 0 {
        first_action
    } else {
        after_all(started, framebuffer_answers(framebuffers.drop_last())).next(
            EventView::Framebuffer(Ok(framebuffers.last())),
        ).1
    }
}

/// A frame that has to set everything up from the beginning ends up ready to draw: with the new
/// swapchain, one framebuffer for each of its images in their order, and the new matrix. The
/// swapchain, the depth buffer and the camera were all asked for in the window's size.
pub proof fn law_rebuilding<G: Backend>(
    state: RendererView<G>,
    extent: Extent,
    swapchain: G::Swapchain,
    images: Seq<G::Image>,
    depth_buffer: G::DepthBuffer,
    framebuffers: Seq<G::Framebuffer>,
    matrix: G::Matrix,
)
    requires
        state.framebuffers !is Valid,
        framebuffers.len() == images.len(),
    ensures
        ({
            let (begun, swapchain_action) = state.begun(extent);
            let (chained, depth_action) = begun.next(EventView::Swapchain(Ok((swapchain, images))));
            let with_depth = chained.next(EventView::DepthBuffer(Ok(depth_buffer))).0;
            let attached = after_all(with_depth, framebuffer_answers(framebuffers));
            let (ready, acquire_action) = attached.next(EventView::Matrix(matrix));
            &&& swapchain_action == match state.framebuffers.swapchain() {
                Some(old_swapchain) => Action::<G>::RecreateSwapchain {
                    swapchain: old_swapchain,
                    request: SwapchainRequest { extent, format: state.color_format },
                },
                None => Action::<G>::CreateSwapchain { request: SwapchainRequest { extent, format: state.color_format } },
            }
            &&& begun.accepts(EventView::Swapchain(Ok((swapchain, images))))
            &&& depth_action == Action::<G>::CreateDepthBuffer {
                extent,
                format: state.depth_format,
            }
            &&& chained.accepts(EventView::DepthBuffer(Ok(depth_buffer)))
            &&& all_possible(with_depth, framebuffer_answers(framebuffers))
            &&& attached.phase == PhaseView::<G>::BuildingMatrix { extent, swapchain, framebuffers }
            &&& last_action(chained, depth_buffer, framebuffers) == Action::<G>::BuildMatrix {
                camera: Camera::spec_for_window(extent),
            }
            &&& attached.accepts(EventView::Matrix(matrix))
            &&& acquire_action == Action::<G>::AcquireImage
            &&& ready == RendererView::<G> {
                framebuffers: FramebuffersView::NotCreated,
                matrix,
                phase: PhaseView::Acquiring { extent, swapchain, framebuffers },
                ..state
            }
        }),
{
    let chained = state.begun(extent).0.next(EventView::Swapchain(Ok((swapchain, images)))).0;
    law_framebuffers_follow_the_images(
        chained,
        extent,
        swapchain,
        images,
        depth_buffer,
        framebuffers,
    );
}

/// A frame that is drawn waits for the work in flight, and leaves its own work in flight. Its
/// swapchain and framebuffers are used again unless the swapchain was found not to fit the
/// window, when the next frame recreates it.
pub proof fn law_drawing<G: Backend>(
    state: RendererView<G>,
    image: usize,
    suboptimal: bool,
    acquired: G::Acquired,
    commands: G::Commands,
    outcome: SubmitOutcome<G>,
    extent: Extent,
)
    requires
        state.phase is Acquiring,
        image < state.phase->Acquiring_framebuffers.len(),
        outcome !is Failed,
    ensures
        ({
            let swapchain = state.phase->Acquiring_swapchain;
            let framebuffers = state.phase->Acquiring_framebuffers;
            let acquire = EventView::Acquire(
                AcquireOutcome::Acquired { image, suboptimal, acquired },
            );
            let (recording, record_action) = state.next(acquire);
            let (submitting, submit_action) = recording.next(EventView::Commands(Ok(commands)));
            let (presented, last_action) = submitting.next(EventView::Submit(outcome));
            &&& state.accepts(acquire)
            &&& record_action == Action::<G>::Record {
                plan: state.draw_plan(image, state.phase->Acquiring_extent),
            }
            &&& recording.accepts(EventView::Commands(Ok(commands)))
            &&& submit_action == Action::<G>::Submit {
                previous: state.inflight,
                acquired,
                commands,
                image,
            }
            &&& submitting.accepts(EventView::Submit(outcome))
            &&& last_action == Action::<G>::ReadClock
            &&& presented.matrix == state.matrix
            &&& presented.inflight == match outcome {
                SubmitOutcome::Flushed { inflight } => Some(inflight),
                _ => None,
            }
            &&& if suboptimal || outcome is OutOfDate {
                presented.begun(extent).1 == Action::<G>::RecreateSwapchain {
                    swapchain,
                    request: SwapchainRequest { extent, format: state.color_format },
                }
            } else {
                presented.framebuffers == FramebuffersView::<G::Swapchain, G::Framebuffer>::Valid {
                    swapchain,
                    framebuffers,
                }
            }
        }),
{
}

/// A swapchain that is out of date when an image is acquired ends the frame without an error and
/// without drawing: the work in flight, the count of frames and the matrix stay, and the next
/// frame recreates the swapchain.
pub proof fn law_out_of_date_is_retried<G: Backend>(state: RendererView<G>, extent: Extent)
    requires
        state.phase is Acquiring,
    ensures
        ({
            let event = EventView::<G>::Acquire(AcquireOutcome::OutOfDate);
            let (ended, action) = state.next(event);
            &&& state.accepts(event)
            &&& action == Action::<G>::Done
            &&& ended.phase is Idle
            &&& ended.inflight == state.inflight
            &&& ended.frames == state.frames
            &&& ended.matrix == state.matrix
            &&& ended.begun(extent).1 == Action::<G>::RecreateSwapchain {
                swapchain: state.phase->Acquiring_swapchain,
                request: SwapchainRequest { extent, format: state.color_format },
            }
        }),
{
}

/// A frame that ends without an error keeps a swapchain, so that the next frame never has to
/// create one from scratch: it draws at once, or recreates the swapchain that was kept.
pub proof fn law_finished_frame_keeps_a_swapchain<G: Backend>(
    state: RendererView<G>,
    event: EventView<G>,
    extent: Extent,
)
    requires
        state.wf(),
        state.accepts(event),
        state.next(event).1 is Done,
    ensures
        state.next(event).0.framebuffers.swapchain() is Some,
        state.next(event).0.begun(extent).1 !is CreateSwapchain,
{
}

/// The error that an answer carries, if it reports a failure.
pub open spec fn failure<G: Backend>(event: EventView<G>) -> Option<G::Error> {
    match event {
        EventView::Swapchain(Err(error)) => Some(error),
        EventView::DepthBuffer(Err(error)) => Some(error),
        EventView::Framebuffer(Err(error)) => Some(error),
        EventView::Acquire(AcquireOutcome::Failed { error }) => Some(error),
        EventView::Commands(Err(error)) => Some(error),
        EventView::Submit(SubmitOutcome::Failed { error }) => Some(error),
        _ => None,
    }
}

/// A frame fails exactly when a step fails, with that step's error. The swapchain is then lost,
/// so that the next frame would create one from scratch, and the frame is not counted. The work
/// in flight is kept unless it was handed over to be submitted.
pub proof fn law_failure<G: Backend>(
    state: RendererView<G>,
    event: EventView<G>,
    extent: Extent,
)
    requires
        state.wf(),
        state.accepts(event),
    ensures
        ({
            let (later, action) = state.next(event);
            match failure(event) {
                Some(error) => {
                    &&& action == Action::<G>::Fail { error }
                    &&& later.phase is Idle
                    &&& later.frames == state.frames
                    &&& later.last_fps_print == state.last_fps_print
                    &&& later.matrix == state.matrix
                    &&& later.inflight == if event is Submit {
                        None
                    } else {
                        state.inflight
                    }
                    &&& later.begun(extent).1 == Action::<G>::CreateSwapchain {
                        request: SwapchainRequest { extent, format: state.color_format },
                    }
                },
                None => action !is Fail,
            }
        }),
{
}

/// However the program has run since the setup, a frame that is recorded clears a range within
/// the pressure buffer that was set up, as long as the grid; draws each of the particles that
/// were set up; and has the compute shader move each of them.
pub proof fn law_recorded_frames_fit_the_setup<G: Backend>(
    plan: SetupPlan,
    color_format: PixelFormat,
    cells: u64,
    inflight: G::InFlight,
    matrix: G::Matrix,
    now: G::Instant,
    inputs: Seq<Input<G>>,
    event: EventView<G>,
)
    requires
        plan.made_for(color_format, cells),
        cells <= u64::MAX / 2,
        all_possible(RendererView::<G>::initial(plan, inflight, matrix, now), inputs),
    ensures
        ({
            let state = after_all(
                RendererView::<G>::initial(plan, inflight, matrix, now),
                inputs,
            );
            state.accepts(event) ==> (state.next(event).1 matches Action::Record { plan: draw }
                ==> {
                &&& draw.pressure_dst_range.start <= draw.pressure_dst_range.end
                &&& draw.pressure_dst_range.end <= plan.pressures_buffer.len
                &&& draw.pressure_dst_range.end - draw.pressure_dst_range.start == plan.cells
                &&& draw.which_pressure_buffer == 0
                &&& draw.vertex_count == plan.points@.len()
                &&& draw.work_groups.0 * 32 == plan.points@.len()
                &&& draw.work_groups.1 == 1
                &&& draw.work_groups.2 == 1
            })
        }),
{
    let start = RendererView::<G>::initial(plan, inflight, matrix, now);
    law_settings_never_change(start, inputs);
    assert(is_lattice(plan.points@));
}

/// However the program has run since the setup, every swapchain is asked for in the colour format
/// that was chosen then and in the window's size, and every depth buffer in the depth format.
pub proof fn law_requests_have_the_formats_of_the_setup<G: Backend>(
    plan: SetupPlan,
    inflight: G::InFlight,
    matrix: G::Matrix,
    now: G::Instant,
    inputs: Seq<Input<G>>,
    extent: Extent,
    event: EventView<G>,
)
    requires
        all_possible(RendererView::<G>::initial(plan, inflight, matrix, now), inputs),
    ensures
        ({
            let state = after_all(
                RendererView::<G>::initial(plan, inflight, matrix, now),
                inputs,
            );
            let reaction = state.handled(WindowInput::RedrawEventsCleared { extent }).1;
            &&& reaction matches Reaction::Frame { action } && {
                &&& action matches Action::CreateSwapchain { request } ==> {
                    &&& request.extent.width == extent.width
                    &&& request.extent.height == extent.height
                    &&& request.format == plan.color_format
                }
                &&& action matches Action::RecreateSwapchain { request, .. } ==> {
                    &&& request.extent.width == extent.width
                    &&& request.extent.height == extent.height
                    &&& request.format == plan.color_format
                }
            }
            &&& state.accepts(event) ==> (state.next(event).1 matches Action::CreateDepthBuffer {
                format,
                ..
            } ==> format == plan.depth_format)
        }),
{
    law_settings_never_change(RendererView::<G>::initial(plan, inflight, matrix, now), inputs);
}

} // verus!
