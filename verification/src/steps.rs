//! What each operation of the renderer is for, said of its inputs and results.

use vstd::prelude::*;

use crate::camera::{law_camera, Camera, Extent};
use crate::frame::{
    AcquireOutcome, Action, Backend, DrawPlan, Event, EventView, Phase, PhaseView, SubmitOutcome,
    SwapchainRequest,
};
use crate::framebuffers::{Framebuffers, FramebuffersView};
use crate::renderer::{Reaction, RendererView, WindowInput};
use crate::setup::SetupPlan;

verus! {

/// What was decided at setup is the same in both states.
pub open spec fn same_settings<G: Backend>(one: RendererView<G>, other: RendererView<G>) -> bool {
    &&& one.color_format == other.color_format
    &&& one.depth_format == other.depth_format
    &&& one.particles == other.particles
    &&& one.cells == other.cells
    &&& one.which_pressure_buffer == other.which_pressure_buffer
}

/// The two states differ at most in how far a frame has come.
pub open spec fn same_but_for_phase<G: Backend>(
    one: RendererView<G>,
    other: RendererView<G>,
) -> bool {
    &&& same_settings(one, other)
    &&& one.framebuffers == other.framebuffers
    &&& one.inflight == other.inflight
    &&& one.matrix == other.matrix
    &&& one.last_fps_print == other.last_fps_print
    &&& one.frames == other.frames
}

/// The camera looks from 20 up and 20 back at the centre, sees a right angle from 1 to 100 away,
/// and has the aspect ratio of an image of the given size.
pub open spec fn camera_of(camera: Camera, extent: Extent) -> bool {
    &&& camera.extent.width == extent.width
    &&& camera.extent.height == extent.height
    &&& camera.vertical_field_of_view_degrees == 90
    &&& camera.near == 1
    &&& camera.far == 100
    &&& camera.eye.x == 0 && camera.eye.y == -20 && camera.eye.z == -20
    &&& camera.target.x == 0 && camera.target.y == 0 && camera.target.z == 0
    &&& camera.up.x == 0 && camera.up.y == 1 && camera.up.z == 0
}

/// The swapchain asked for has the window's size and the given format.
pub open spec fn asks_for(
    request: SwapchainRequest,
    extent: Extent,
    format: crate::setup::PixelFormat,
) -> bool {
    &&& request.extent.width == extent.width
    &&& request.extent.height == extent.height
    &&& request.format == format
}

/// The frame clears one half of the pressure buffer, and tells the shader which, lets the compute
/// shader move the particles, and draws all of them into the whole of one image.
pub open spec fn draws_everything<G: Backend>(
    plan: DrawPlan,
    state: RendererView<G>,
    image: usize,
    extent: Extent,
) -> bool {
    &&& plan.framebuffer == image
    &&& plan.viewport.width == extent.width
    &&& plan.viewport.height == extent.height
    &&& plan.which_pressure_buffer == if state.which_pressure_buffer { 1int } else { 0int }
    &&& plan.pressure_dst_range.start == if state.which_pressure_buffer {
        0int
    } else {
        state.cells as int
    }
    &&& plan.pressure_dst_range.end - plan.pressure_dst_range.start == state.cells
    &&& state.particles <= u32::MAX ==> plan.vertex_count == state.particles
    &&& (state.particles - plan.vertex_count) % 0x1_0000_0000 == 0
    &&& plan.work_groups.0 * 32 <= plan.vertex_count < plan.work_groups.0 * 32 + 32
    &&& plan.work_groups.1 == 1
    &&& plan.work_groups.2 == 1
    &&& plan.instance_count == 1
    &&& plan.first_vertex == 0
    &&& plan.first_instance == 0
}

/// A new renderer has the formats, particles and grid of its plan, waits for the upload, has
/// nothing to draw into, has shown nothing, and begins with the flag unset.
pub proof fn law_new_renderer<G: Backend>(
    plan: SetupPlan,
    inflight: G::InFlight,
    matrix: G::Matrix,
    now: G::Instant,
)
    ensures
        ({
            let state = RendererView::<G>::initial(plan, inflight, matrix, now);
            &&& state.color_format == plan.color_format
            &&& state.depth_format == plan.depth_format
            &&& state.particles == plan.points_buffer.len
            &&& state.cells == plan.cells
            &&& state.framebuffers is NotCreated
            &&& state.inflight == Some(inflight)
            &&& state.matrix == matrix
            &&& state.last_fps_print == now
            &&& state.frames == 0
            &&& !state.which_pressure_buffer
            &&& state.phase is Idle
            &&& plan.cells <= u64::MAX / 2 ==> state.wf()
        }),
{
}

/// A resize leaves everything as it is but for the framebuffers: they are dropped, and their
/// swapchain is kept.
pub proof fn law_resize<G: Backend>(state: RendererView<G>)
    ensures
        ({
            let later = state.resized();
            &&& same_settings(later, state)
            &&& later.inflight == state.inflight
            &&& later.matrix == state.matrix
            &&& later.last_fps_print == state.last_fps_print
            &&& later.frames == state.frames
            &&& later.phase == state.phase
            &&& later.framebuffers is NotCreated <==> state.framebuffers is NotCreated
            &&& later.framebuffers is Invalid <==> state.framebuffers !is NotCreated
            &&& state.framebuffers matches FramebuffersView::Valid { swapchain, .. }
                ==> later.framebuffers->Invalid_swapchain == swapchain
            &&& state.framebuffers matches FramebuffersView::Invalid { swapchain }
                ==> later.framebuffers->Invalid_swapchain == swapchain
        }),
{
}

/// A frame begins by acquiring an image if and only if there are usable framebuffers, by creating
/// a swapchain if and only if there is none, and by recreating the one that there is otherwise.
/// The swapchain asked for has the window's size and the renderer's colour format.
pub proof fn law_beginning<G: Backend>(state: RendererView<G>, extent: Extent)
    ensures
        ({
            let (later, action) = state.begun(extent);
            &&& action is AcquireImage <==> state.framebuffers is Valid
            &&& action is RecreateSwapchain <==> state.framebuffers is Invalid
            &&& action is CreateSwapchain <==> state.framebuffers is NotCreated
            &&& action matches Action::CreateSwapchain { request } ==> asks_for(
                request,
                extent,
                state.color_format,
            )
            &&& action matches Action::RecreateSwapchain { swapchain, request } ==> {
                &&& swapchain == state.framebuffers->Invalid_swapchain
                &&& asks_for(request, extent, state.color_format)
            }
            &&& later.phase is Acquiring <==> state.framebuffers is Valid
            &&& later.phase is CreatingSwapchain <==> state.framebuffers !is Valid
            &&& later.phase matches PhaseView::CreatingSwapchain { extent: kept } ==> kept
                == extent
            &&& later.phase matches PhaseView::Acquiring {
                extent: kept,
                swapchain,
                framebuffers,
            } ==> {
                &&& kept == extent
                &&& swapchain == state.framebuffers->Valid_swapchain
                &&& framebuffers == state.framebuffers->Valid_framebuffers
            }
            &&& later.framebuffers is NotCreated
            &&& same_settings(later, state)
            &&& later.inflight == state.inflight
            &&& later.matrix == state.matrix
            &&& later.last_fps_print == state.last_fps_print
            &&& later.frames == state.frames
        }),
{
}

/// The program ends if and only if the window is to be closed, in whatever state the renderer is.
/// A frame is made if and only if it is time to draw, and it is the one that the renderer would
/// begin for the window's size. Nothing but a resize and a frame changes the renderer.
pub proof fn law_window_inputs<G: Backend>(state: RendererView<G>, input: WindowInput)
    ensures
        ({
            let (later, reaction) = state.handled(input);
            &&& reaction is Exit <==> input is CloseRequested
            &&& reaction is Frame <==> input is RedrawEventsCleared
            &&& reaction is Continue <==> input is Resized || input is Other
            &&& input is CloseRequested || input is Other ==> later == state
            &&& input is Resized ==> {
                &&& later.framebuffers !is Valid
                &&& later == RendererView::<G> { framebuffers: later.framebuffers, ..state }
                &&& later == state.resized()
            }
            &&& input matches WindowInput::RedrawEventsCleared { extent } ==> {
                &&& reaction->action == state.begun(extent).1
                &&& later == state.begun(extent).0
            }
        }),
{
}

/// An answer is accepted if and only if it is of the kind that is awaited; an acquired image must
/// have a framebuffer, and a frame that is counted must fit the counter.
pub proof fn law_accepted_answers<G: Backend>(state: RendererView<G>, event: EventView<G>)
    ensures
        state.accepts(event) <==> {
            ||| state.phase is CreatingSwapchain && event is Swapchain
            ||| state.phase is CreatingDepthBuffer && event is DepthBuffer
            ||| state.phase is CreatingFramebuffers && event is Framebuffer
            ||| state.phase is BuildingMatrix && event is Matrix
            ||| state.phase is Acquiring && event is Acquire && (event->Acquire_0 is Acquired
                ==> event->Acquire_0->image < state.phase->Acquiring_framebuffers.len())
            ||| state.phase is Recording && event is Commands
            ||| state.phase is Submitting && event is Submit
            ||| state.phase is ReadingClock && event is Elapsed && state.frames < 0xffff_ffff
            ||| state.phase is Reporting && event is Reported
        },
{
}

/// After the swapchain the depth buffer is asked for, in the size of the frame and the
/// renderer's depth format; swapchain and images are kept.
pub proof fn law_swapchain_answer<G: Backend>(
    state: RendererView<G>,
    extent: Extent,
    swapchain: G::Swapchain,
    images: Seq<G::Image>,
)
    requires
        state.phase == (PhaseView::<G>::CreatingSwapchain { extent }),
    ensures
        ({
            let (later, action) = state.next(EventView::Swapchain(Ok((swapchain, images))));
            &&& action is CreateDepthBuffer
            &&& action->CreateDepthBuffer_extent == extent
            &&& action->CreateDepthBuffer_format == state.depth_format
            &&& later.phase is CreatingDepthBuffer
            &&& later.phase->CreatingDepthBuffer_extent == extent
            &&& later.phase->CreatingDepthBuffer_swapchain == swapchain
            &&& later.phase->CreatingDepthBuffer_images == images
            &&& same_but_for_phase(later, state)
        }),
{
}

/// `later` and `action` go on with the framebuffers made so far: the next image's framebuffer is
/// asked for, or, when every image has one, the matrix for the frame's size.
pub open spec fn goes_on_with<G: Backend>(
    later: RendererView<G>,
    action: Action<G>,
    extent: Extent,
    swapchain: G::Swapchain,
    images: Seq<G::Image>,
    depth_buffer: G::DepthBuffer,
    framebuffers: Seq<G::Framebuffer>,
) -> bool {
    if framebuffers.len() < images.len() {
        &&& action is CreateFramebuffer
        &&& images.len() <= usize::MAX ==> action->CreateFramebuffer_image == framebuffers.len()
        &&& later.phase is CreatingFramebuffers
        &&& later.phase->CreatingFramebuffers_extent == extent
        &&& later.phase->CreatingFramebuffers_swapchain == swapchain
        &&& later.phase->CreatingFramebuffers_images == images
        &&& later.phase->CreatingFramebuffers_depth_buffer == depth_buffer
        &&& later.phase->CreatingFramebuffers_framebuffers == framebuffers
    } else {
        &&& action is BuildMatrix
        &&& camera_of(action->camera, extent)
        &&& later.phase is BuildingMatrix
        &&& later.phase->BuildingMatrix_extent == extent
        &&& later.phase->BuildingMatrix_swapchain == swapchain
        &&& later.phase->BuildingMatrix_framebuffers == framebuffers
    }
}

/// After the depth buffer the first image's framebuffer is asked for, if there is an image.
pub proof fn law_depth_buffer_answer<G: Backend>(
    state: RendererView<G>,
    extent: Extent,
    swapchain: G::Swapchain,
    images: Seq<G::Image>,
    depth_buffer: G::DepthBuffer,
)
    requires
        state.phase == (PhaseView::<G>::CreatingDepthBuffer { extent, swapchain, images }),
    ensures
        ({
            let (later, action) = state.next(EventView::DepthBuffer(Ok(depth_buffer)));
            &&& goes_on_with(
                later,
                action,
                extent,
                swapchain,
                images,
                depth_buffer,
                Seq::<G::Framebuffer>::empty(),
            )
            &&& same_but_for_phase(later, state)
        }),
{
    law_camera(extent);
}

/// Each new framebuffer is added behind the others, and the next image is taken up.
pub proof fn law_framebuffer_answer<G: Backend>(
    state: RendererView<G>,
    extent: Extent,
    swapchain: G::Swapchain,
    images: Seq<G::Image>,
    depth_buffer: G::DepthBuffer,
    framebuffers: Seq<G::Framebuffer>,
    framebuffer: G::Framebuffer,
)
    requires
        state.phase == (PhaseView::<G>::CreatingFramebuffers {
            extent,
            swapchain,
            images,
            depth_buffer,
            framebuffers,
        }),
    ensures
        ({
            let (later, action) = state.next(EventView::Framebuffer(Ok(framebuffer)));
            &&& goes_on_with(
                later,
                action,
                extent,
                swapchain,
                images,
                depth_buffer,
                framebuffers.push(framebuffer),
            )
            &&& same_but_for_phase(later, state)
        }),
{
    law_camera(extent);
}

/// The new matrix replaces the old one, and an image is acquired next.
pub proof fn law_matrix_answer<G: Backend>(
    state: RendererView<G>,
    extent: Extent,
    swapchain: G::Swapchain,
    framebuffers: Seq<G::Framebuffer>,
    matrix: G::Matrix,
)
    requires
        state.phase == (PhaseView::<G>::BuildingMatrix { extent, swapchain, framebuffers }),
    ensures
        ({
            let (later, action) = state.next(EventView::Matrix(matrix));
            &&& action is AcquireImage
            &&& later.matrix == matrix
            &&& later.phase is Acquiring
            &&& later.phase->Acquiring_extent == extent
            &&& later.phase->Acquiring_swapchain == swapchain
            &&& later.phase->Acquiring_framebuffers == framebuffers
            &&& same_settings(later, state)
            &&& later.framebuffers == state.framebuffers
            &&& later.inflight == state.inflight
            &&& later.last_fps_print == state.last_fps_print
            &&& later.frames == state.frames
        }),
{
}

/// For every acquired image the frame is drawn into that image's own framebuffer, over the whole
/// window, and the same image is presented; it waits for the work that was in flight and for the
/// image.
pub proof fn law_acquired_image_is_drawn_and_presented<G: Backend>(
    state: RendererView<G>,
    extent: Extent,
    swapchain: G::Swapchain,
    framebuffers: Seq<G::Framebuffer>,
    image: usize,
    suboptimal: bool,
    acquired: G::Acquired,
    commands: G::Commands,
)
    requires
        state.phase == (PhaseView::<G>::Acquiring { extent, swapchain, framebuffers }),
        state.cells <= u64::MAX / 2,
    ensures
        ({
            let (recording, record) = state.next(
                EventView::Acquire(AcquireOutcome::Acquired { image, suboptimal, acquired }),
            );
            let (submitting, submit) = recording.next(EventView::Commands(Ok(commands)));
            &&& record is Record
            &&& draws_everything(record->plan, state, image, extent)
            &&& recording.phase is Recording
            &&& recording.phase->Recording_swapchain == swapchain
            &&& recording.phase->Recording_framebuffers == framebuffers
            &&& recording.phase->Recording_image == image
            &&& recording.phase->Recording_suboptimal == suboptimal
            &&& recording.phase->Recording_acquired == acquired
            &&& same_but_for_phase(recording, state)
            &&& submit is Submit
            &&& submit->Submit_image == record->plan.framebuffer
            &&& submit->previous == state.inflight
            &&& submit->Submit_acquired == acquired
            &&& submit->commands == commands
            &&& submitting.phase is Submitting
            &&& submitting.phase->Submitting_swapchain == swapchain
            &&& submitting.phase->Submitting_framebuffers == framebuffers
            &&& submitting.phase->Submitting_suboptimal == suboptimal
            &&& submitting.inflight is None
            &&& same_settings(submitting, state)
            &&& submitting.framebuffers == state.framebuffers
            &&& submitting.matrix == state.matrix
            &&& submitting.last_fps_print == state.last_fps_print
            &&& submitting.frames == state.frames
        }),
{
}

/// The two values of the flag clear the two halves of the buffer and tell the shader apart; the
/// frames are otherwise the same.
pub proof fn law_flag_swaps_the_halves<G: Backend>(
    state: RendererView<G>,
    image: usize,
    extent: Extent,
)
    requires
        state.cells <= u64::MAX / 2,
        !state.which_pressure_buffer,
    ensures
        ({
            let unset = state.draw_plan(image, extent);
            let set = (RendererView::<G> { which_pressure_buffer: true, ..state }).draw_plan(
                image,
                extent,
            );
            &&& set.pressure_dst_range.start == 0
            &&& set.pressure_dst_range.end == unset.pressure_dst_range.start
            &&& unset.pressure_dst_range.end == 2 * state.cells
            &&& set.which_pressure_buffer != unset.which_pressure_buffer
            &&& set == (DrawPlan {
                which_pressure_buffer: set.which_pressure_buffer,
                pressure_dst_range: set.pressure_dst_range,
                ..unset
            })
        }),
{
}

/// An image that cannot be acquired because the swapchain is out of date ends the frame without
/// an error, and nothing but the swapchain's validity changes.
pub proof fn law_out_of_date_at_acquire<G: Backend>(
    state: RendererView<G>,
    extent: Extent,
    swapchain: G::Swapchain,
    framebuffers: Seq<G::Framebuffer>,
)
    requires
        state.phase == (PhaseView::<G>::Acquiring { extent, swapchain, framebuffers }),
    ensures
        ({
            let (later, action) = state.next(EventView::Acquire(AcquireOutcome::OutOfDate));
            &&& action is Done
            &&& later.phase is Idle
            &&& later.framebuffers is Invalid
            &&& later.framebuffers->Invalid_swapchain == swapchain
            &&& same_settings(later, state)
            &&& later.inflight == state.inflight
            &&& later.matrix == state.matrix
            &&& later.last_fps_print == state.last_fps_print
            &&& later.frames == state.frames
        }),
{
}

/// After a frame is submitted, its own work is in flight, if it was flushed. The framebuffers are
/// used again if and only if it was flushed to a swapchain that was not suboptimal; otherwise the
/// swapchain alone is kept.
pub proof fn law_submit_answer<G: Backend>(
    state: RendererView<G>,
    swapchain: G::Swapchain,
    framebuffers: Seq<G::Framebuffer>,
    suboptimal: bool,
    outcome: SubmitOutcome<G>,
)
    requires
        state.phase == (PhaseView::<G>::Submitting { swapchain, framebuffers, suboptimal }),
        outcome !is Failed,
    ensures
        ({
            let (later, action) = state.next(EventView::Submit(outcome));
            &&& action is ReadClock
            &&& later.phase is ReadingClock
            &&& later.framebuffers is Valid <==> outcome is Flushed && !suboptimal
            &&& later.framebuffers is Invalid <==> outcome is OutOfDate || suboptimal
            &&& later.framebuffers matches FramebuffersView::Valid {
                swapchain: kept,
                framebuffers: kept_framebuffers,
            } ==> kept == swapchain && kept_framebuffers == framebuffers
            &&& later.framebuffers matches FramebuffersView::Invalid { swapchain: kept } ==> kept
                == swapchain
            &&& outcome matches SubmitOutcome::Flushed { inflight } ==> later.inflight == Some(
                inflight,
            )
            &&& outcome is OutOfDate ==> later.inflight is None
            &&& same_settings(later, state)
            &&& later.matrix == state.matrix
            &&& later.last_fps_print == state.last_fps_print
            &&& later.frames == state.frames
        }),
{
}

/// A shown frame is counted. When at least a second has passed since the last report, the count
/// is reported, and counting and timing start anew; otherwise the frame is over.
pub proof fn law_clock_answers<G: Backend>(
    state: RendererView<G>,
    seconds: u64,
    now: G::Instant,
)
    requires
        state.phase is ReadingClock,
        state.frames < 0xffff_ffff,
    ensures
        ({
            let (counted, action) = state.next(EventView::Elapsed { seconds });
            let (reported, last) = counted.next(EventView::Reported { now });
            &&& counted.frames == state.frames + 1
            &&& counted.last_fps_print == state.last_fps_print
            &&& same_settings(counted, state)
            &&& counted.framebuffers == state.framebuffers
            &&& counted.inflight == state.inflight
            &&& counted.matrix == state.matrix
            &&& action is Done <==> seconds < 1
            &&& counted.phase is Idle <==> seconds < 1
            &&& action is ReportFps <==> seconds >= 1
            &&& counted.phase is Reporting <==> seconds >= 1
            &&& seconds >= 1 ==> {
                &&& action->frames == state.frames + 1
                &&& last is Done
                &&& reported.phase is Idle
                &&& reported.frames == 0
                &&& reported.last_fps_print == now
                &&& same_settings(reported, state)
                &&& reported.framebuffers == state.framebuffers
                &&& reported.inflight == state.inflight
                &&& reported.matrix == state.matrix
            }
        }),
{
}

/// Any failing step gives the frame up with that step's error, and changes nothing else.
pub proof fn law_failing_steps<G: Backend>(state: RendererView<G>, error: G::Error)
    ensures
        forall|event: EventView<G>| #[trigger]
            state.accepts(event) && {
                ||| event == EventView::<G>::Swapchain(Err(error))
                ||| event == EventView::<G>::DepthBuffer(Err(error))
                ||| event == EventView::<G>::Framebuffer(Err(error))
                ||| event == EventView::<G>::Acquire(AcquireOutcome::Failed { error })
                ||| event == EventView::<G>::Commands(Err(error))
                ||| event == EventView::<G>::Submit(SubmitOutcome::Failed { error })
            } ==> {
                let (later, action) = state.next(event);
                &&& action is Fail
                &&& action->error == error
                &&& later.phase is Idle
                &&& same_but_for_phase(later, state)
            },
{
}

/// The view of the framebuffers shows all of them, and the swapchain.
pub proof fn law_framebuffers_are_shown<S, F>(value: Framebuffers<S, F>)
    ensures
        value is NotCreated <==> value@ is NotCreated,
        value is Invalid <==> value@ is Invalid,
        value is Valid <==> value@ is Valid,
        value is Invalid ==> value@->Invalid_swapchain == value->Invalid_swapchain,
        value is Valid ==> value@->Valid_swapchain == value->Valid_swapchain,
        value is Valid ==> value@->Valid_framebuffers == value->Valid_framebuffers@,
{
}

/// The view of a frame that is being made shows which step is awaited, and everything that the
/// frame holds.
pub proof fn law_phase_is_shown<G: Backend>(value: Phase<G>)
    ensures
        value is Idle <==> value@ is Idle,
        value is ReadingClock <==> value@ is ReadingClock,
        value is Reporting <==> value@ is Reporting,
        value matches Phase::CreatingSwapchain { extent } ==> value@
            == (PhaseView::<G>::CreatingSwapchain { extent }),
        value matches Phase::CreatingDepthBuffer { extent, swapchain, images } ==> value@
            == (PhaseView::<G>::CreatingDepthBuffer { extent, swapchain, images: images@ }),
        value matches Phase::CreatingFramebuffers {
            extent,
            swapchain,
            images,
            depth_buffer,
            framebuffers,
        } ==> value@ == (PhaseView::<G>::CreatingFramebuffers {
            extent,
            swapchain,
            images: images@,
            depth_buffer,
            framebuffers: framebuffers@,
        }),
        value matches Phase::BuildingMatrix { extent, swapchain, framebuffers } ==> value@
            == (PhaseView::<G>::BuildingMatrix {
            extent,
            swapchain,
            framebuffers: framebuffers@,
        }),
        value matches Phase::Acquiring { extent, swapchain, framebuffers } ==> value@
            == (PhaseView::<G>::Acquiring { extent, swapchain, framebuffers: framebuffers@ }),
        value matches Phase::Recording { swapchain, framebuffers, image, suboptimal, acquired }
            ==> value@ == (PhaseView::<G>::Recording {
            swapchain,
            framebuffers: framebuffers@,
            image,
            suboptimal,
            acquired,
        }),
        value matches Phase::Submitting { swapchain, framebuffers, suboptimal } ==> value@
            == (PhaseView::<G>::Submitting {
            swapchain,
            framebuffers: framebuffers@,
            suboptimal,
        }),
{
}

/// The view of an answer shows everything that the answer holds.
pub proof fn law_event_is_shown<G: Backend>(value: Event<G>)
    ensures
        value matches Event::Swapchain(Ok((swapchain, images))) ==> value@
            == EventView::<G>::Swapchain(Ok((swapchain, images@))),
        value matches Event::Swapchain(Err(error)) ==> value@ == EventView::<G>::Swapchain(
            Err(error),
        ),
        value matches Event::DepthBuffer(result) ==> value@ == EventView::<G>::DepthBuffer(result),
        value matches Event::Framebuffer(result) ==> value@ == EventView::<G>::Framebuffer(result),
        value matches Event::Matrix(matrix) ==> value@ == EventView::<G>::Matrix(matrix),
        value matches Event::Acquire(outcome) ==> value@ == EventView::<G>::Acquire(outcome),
        value matches Event::Commands(result) ==> value@ == EventView::<G>::Commands(result),
        value matches Event::Submit(outcome) ==> value@ == EventView::<G>::Submit(outcome),
        value matches Event::Elapsed { seconds } ==> value@ == (EventView::<G>::Elapsed { seconds }),
        value matches Event::Reported { now } ==> value@ == (EventView::<G>::Reported { now }),
{
}

} // verus!
