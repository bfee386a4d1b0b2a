//! The presentation loop as a state machine.
//!
//! The loop itself runs outside this crate: it waits for window events,
//! talks to the presentation engine and the device, and reports what
//! happened. `FrameLoop::step` takes each report as an `Event` and answers
//! with the `Action` to perform next. One frame is in flight at most: a new
//! image is acquired only after the submission before it has completed.

use vstd::prelude::*;
use crate::resource_set::{ResourceSet, ResourceSetView};
use crate::resources::{ConstructionError, Extent, Swapchain, VertexBuffer};
use crate::shader::ShaderBinary;

verus! {

/// The stage of the work at which a fatal error arose.
#[derive(Clone, Copy, PartialEq, Eq, Debug, Structural)]
pub enum Stage {
    SwapchainCreation,
    FramebufferCreation,
    PipelineCreation,
    CommandRecording,
    ImageAcquisition,
    Submission,
    Presentation,
}

/// The life cycle of the swapchain.
#[derive(Clone, Copy, PartialEq, Eq, Debug, Structural)]
pub enum SwapchainState {
    /// The swapchain matches the surface and can be presented to.
    Live,
    /// The swapchain has to be replaced before the next frame.
    Invalidated,
    /// The replacement is under way.
    Recreating,
}

/// What the loop is waiting for.
#[derive(Clone, Copy, PartialEq, Eq, Debug, Structural)]
pub enum Phase {
    /// Between frames: waiting for window events.
    Idle,
    /// Waiting for the swapchain to be replaced.
    Recreating,
    /// Waiting for the dependent resources to be rebuilt.
    Rebuilding,
    /// Waiting for the next image.
    Acquiring,
    /// Waiting for the submitted frame to complete.
    Submitting { image_index: usize },
    /// The window was closed.
    Closed,
    /// A fatal error arose.
    Failed(Stage),
}

/// How replacing the swapchain ended.
#[derive(Clone, Copy, PartialEq, Eq, Debug, Structural)]
pub enum RecreateOutcome {
    /// A new swapchain of `image_count` images was made for a surface of
    /// `extent`.
    Created { image_count: usize, extent: Extent },
    /// The extent asked for is not supported at this moment.
    ExtentNotSupported,
    /// Any other failure.
    Failed,
}

/// How rebuilding the dependent resources ended.
#[derive(Clone, Copy, PartialEq, Eq, Debug, Structural)]
pub enum RebuildOutcome {
    /// Everything asked for was built.
    Done,
    /// A framebuffer could not be made.
    FramebufferFailed,
    /// The pipeline could not be made.
    PipelineFailed,
    /// A command buffer could not be recorded.
    CommandBufferFailed,
}

/// How acquiring the next image ended.
#[derive(Clone, Copy, PartialEq, Eq, Debug, Structural)]
pub enum AcquireOutcome {
    /// Image `image_index` is ready; `suboptimal` says that the swapchain
    /// still works but no longer matches the surface.
    Acquired { image_index: usize, suboptimal: bool },
    /// The swapchain can no longer be presented to.
    OutOfDate,
    /// Any other failure.
    Failed,
}

/// How submitting and presenting a frame ended.
#[derive(Clone, Copy, PartialEq, Eq, Debug, Structural)]
pub enum SubmitOutcome {
    /// The frame was executed and presented, and the device is done with it.
    Completed,
    /// The swapchain went out of date under the frame.
    OutOfDate,
    /// The command buffer could not be executed.
    ExecuteFailed,
    /// Presenting, flushing or waiting failed for another reason.
    PresentFailed,
}

/// What the loop reports.
#[derive(Clone, Copy, PartialEq, Eq, Debug, Structural)]
pub enum Event {
    /// The user asked to close the window.
    CloseRequested,
    /// The surface changed its size.
    Resized,
    /// All pending window events were delivered: a frame may be drawn.
    RedrawEventsCleared,
    /// Any other window event.
    Other,
    /// Answer to `Action::RecreateSwapchain`.
    Recreated(RecreateOutcome),
    /// Answer to `Action::Rebuild`.
    Rebuilt(RebuildOutcome),
    /// Answer to `Action::Acquire`.
    Acquired(AcquireOutcome),
    /// Answer to `Action::Submit`.
    Submitted(SubmitOutcome),
}

/// What the loop is to do next.
#[derive(Clone, Copy, PartialEq, Eq, Debug, Structural)]
pub enum Action {
    /// Nothing: wait for the next window event.
    Wait,
    /// Leave the loop; the process ends normally.
    Exit,
    /// Replace the swapchain by one for the surface's current extent, and
    /// report `Event::Recreated`.
    RecreateSwapchain,
    /// Build the framebuffers of the resource set and, if `pipeline` is set,
    /// its pipeline and command buffers too, and report `Event::Rebuilt`.
    Rebuild { pipeline: bool },
    /// Acquire the next image, without a timeout, and report
    /// `Event::Acquired`.
    Acquire,
    /// Execute command buffer `image_index` once the image is acquired,
    /// present that image, flush, wait for the device, and report
    /// `Event::Submitted`.
    Submit { image_index: usize },
    /// Leave the loop with a diagnostic that names the stage.
    Abort(Stage),
}

/// The words that name `stage` in a diagnostic.
pub open spec fn stage_name(stage: Stage) -> Seq<char> {
    match stage {
        Stage::SwapchainCreation => "swapchain creation"@,
        Stage::FramebufferCreation => "framebuffer creation"@,
        Stage::PipelineCreation => "pipeline creation"@,
        Stage::CommandRecording => "command recording"@,
        Stage::ImageAcquisition => "image acquisition"@,
        Stage::Submission => "submission"@,
        Stage::Presentation => "presentation"@,
    }
}

/// The status the process ends with on `action`: 0 on a normal exit, 1 on a
/// fatal error, none while the loop goes on.
pub open spec fn exit_status_of(action: Action) -> Option<i32> {
    match action {
        Action::Exit => Some(0i32),
        Action::Abort(_) => Some(1i32),
        _ => None,
    }
}

impl Stage {
    /// The words that name the stage in a diagnostic.
    pub fn name(&self) -> (name: &'static str)
        ensures
            name@ == stage_name(*self),
    {
        match self {
            Stage::SwapchainCreation => "swapchain creation",
            Stage::FramebufferCreation => "framebuffer creation",
            Stage::PipelineCreation => "pipeline creation",
            Stage::CommandRecording => "command recording",
            Stage::ImageAcquisition => "image acquisition",
            Stage::Submission => "submission",
            Stage::Presentation => "presentation",
        }
    }
}

impl Action {
    /// The status the process ends with, if this action ends it.
    pub fn exit_status(&self) -> (status: Option<i32>)
        ensures
            status == exit_status_of(*self),
    {
        match self {
            Action::Exit => Some(0),
            Action::Abort(_) => Some(1),
            _ => None,
        }
    }
}

/// The state of a presentation loop.
#[derive(Debug)]
pub struct FrameLoop {
    phase: Phase,
    resize_pending: bool,
    swapchain_stale: bool,
    resources: ResourceSet,
}

/// The state of a presentation loop as a mathematical value.
pub struct FrameLoopView {
    pub phase: Phase,
    /// The surface was resized since the swapchain was last replaced.
    pub resize_pending: bool,
    /// The presentation engine called the swapchain out of date or
    /// suboptimal since it was last replaced.
    pub swapchain_stale: bool,
    pub resources: ResourceSetView,
}

impl FrameLoopView {
    /// The state before the first event.
    pub open spec fn initial(resources: ResourceSetView) -> FrameLoopView {
        FrameLoopView {
            phase: Phase::Idle,
            resize_pending: false,
            swapchain_stale: false,
            resources,
        }
    }

    /// What holds of every state of the loop.
    pub open spec fn wf(self) -> bool {
        &&& self.resources.wf()
        &&& self.phase is Recreating ==> self.invalidated()
        &&& self.phase matches Phase::Submitting { image_index } ==> image_index
            < self.resources.command_buffers.len()
    }

    /// The loop has ended: no event changes the state any more.
    pub open spec fn terminal(self) -> bool {
        self.phase is Closed || self.phase is Failed
    }

    /// The swapchain has to be replaced before the next frame is drawn.
    pub open spec fn invalidated(self) -> bool {
        self.resize_pending || self.swapchain_stale
    }

    /// Where the swapchain is in its life cycle.
    pub open spec fn swapchain_state(self) -> SwapchainState {
        if self.phase is Recreating || self.phase is Rebuilding {
            SwapchainState::Recreating
        } else if self.invalidated() {
            SwapchainState::Invalidated
        } else {
            SwapchainState::Live
        }
    }

    /// The state in `phase`, all else the same.
    pub open spec fn in_phase(self, phase: Phase) -> FrameLoopView {
        FrameLoopView { phase, ..self }
    }

    /// The state after a fatal error at `stage`, and the action that
    /// reports it.
    pub open spec fn fail(self, stage: Stage) -> (FrameLoopView, Action) {
        (self.in_phase(Phase::Failed(stage)), Action::Abort(stage))
    }

    /// A frame may be drawn. Between frames, an invalidated swapchain is
    /// replaced first; a live one is acquired from.
    pub open spec fn on_redraw(self) -> (FrameLoopView, Action) {
        if !(self.phase is Idle) {
            (self, Action::Wait)
        } else if self.invalidated() {
            (self.in_phase(Phase::Recreating), Action::RecreateSwapchain)
        } else {
            (self.in_phase(Phase::Acquiring), Action::Acquire)
        }
    }

    /// The swapchain was, or was not, replaced. On success both flags are
    /// cleared and the resources follow; the pipeline and the command
    /// buffers only if a resize was pending. An unsupported extent ends the
    /// frame with the flags as they were, so that the replacement is tried
    /// again at the next frame. Any other failure is fatal.
    pub open spec fn on_recreated(self, outcome: RecreateOutcome) -> (FrameLoopView, Action) {
        if !(self.phase is Recreating) {
            (self, Action::Wait)
        } else {
            match outcome {
                RecreateOutcome::Created { image_count, extent } => (
                    FrameLoopView {
                        phase: Phase::Rebuilding,
                        resize_pending: false,
                        swapchain_stale: false,
                        resources: self.resources.recreated(
                            image_count,
                            extent,
                            self.resize_pending,
                        ),
                    },
                    Action::Rebuild { pipeline: self.resize_pending },
                ),
                RecreateOutcome::ExtentNotSupported => (self.in_phase(Phase::Idle), Action::Wait),
                RecreateOutcome::Failed => self.fail(Stage::SwapchainCreation),
            }
        }
    }

    /// The dependent resources were, or were not, rebuilt. A failure is
    /// fatal, at the stage of the resource that could not be made.
    pub open spec fn on_rebuilt(self, outcome: RebuildOutcome) -> (FrameLoopView, Action) {
        if !(self.phase is Rebuilding) {
            (self, Action::Wait)
        } else {
            match outcome {
                RebuildOutcome::Done => (self.in_phase(Phase::Acquiring), Action::Acquire),
                RebuildOutcome::FramebufferFailed => self.fail(Stage::FramebufferCreation),
                RebuildOutcome::PipelineFailed => self.fail(Stage::PipelineCreation),
                RebuildOutcome::CommandBufferFailed => self.fail(Stage::CommandRecording),
            }
        }
    }

    /// An image was, or was not, acquired. An image that has a command
    /// buffer is drawn to, and a suboptimal swapchain is marked stale for
    /// the next frame. An out-of-date swapchain is marked stale and the frame
    /// ends without a submission. Anything else is fatal.
    pub open spec fn on_acquired(self, outcome: AcquireOutcome) -> (FrameLoopView, Action) {
        if !(self.phase is Acquiring) {
            (self, Action::Wait)
        } else {
            match outcome {
                AcquireOutcome::Acquired { image_index, suboptimal } => {
                    if image_index < self.resources.command_buffers.len() {
                        (
                            FrameLoopView {
                                phase: Phase::Submitting { image_index },
                                swapchain_stale: self.swapchain_stale || suboptimal,
                                ..self
                            },
                            Action::Submit { image_index },
                        )
                    } else {
                        self.fail(Stage::ImageAcquisition)
                    }
                },
                AcquireOutcome::OutOfDate => (
                    FrameLoopView { phase: Phase::Idle, swapchain_stale: true, ..self },
                    Action::Wait,
                ),
                AcquireOutcome::Failed => self.fail(Stage::ImageAcquisition),
            }
        }
    }

    /// The frame was, or was not, completed. Either way but the fatal ones
    /// the frame is over; an out-of-date swapchain is marked stale.
    pub open spec fn on_submitted(self, outcome: SubmitOutcome) -> (FrameLoopView, Action) {
        if !(self.phase is Submitting) {
            (self, Action::Wait)
        } else {
            match outcome {
                SubmitOutcome::Completed => (self.in_phase(Phase::Idle), Action::Wait),
                SubmitOutcome::OutOfDate => (
                    FrameLoopView { phase: Phase::Idle, swapchain_stale: true, ..self },
                    Action::Wait,
                ),
                SubmitOutcome::ExecuteFailed => self.fail(Stage::Submission),
                SubmitOutcome::PresentFailed => self.fail(Stage::Presentation),
            }
        }
    }

    /// The state after `event`, and the action it calls for.
    ///
    /// A loop that has ended stays as it is and repeats its last word. A
    /// close request ends the loop from any phase. A resize sets the flag,
    /// once for any number of resizes. An answer counts only in the phase
    /// that waits for it; at any other time it changes nothing.
    pub open spec fn step(self, event: Event) -> (FrameLoopView, Action) {
        match self.phase {
            Phase::Closed => (self, Action::Exit),
            Phase::Failed(stage) => (self, Action::Abort(stage)),
            _ => match event {
                Event::CloseRequested => (self.in_phase(Phase::Closed), Action::Exit),
                Event::Resized => (FrameLoopView { resize_pending: true, ..self }, Action::Wait),
                Event::Other => (self, Action::Wait),
                Event::RedrawEventsCleared => self.on_redraw(),
                Event::Recreated(outcome) => self.on_recreated(outcome),
                Event::Rebuilt(outcome) => self.on_rebuilt(outcome),
                Event::Acquired(outcome) => self.on_acquired(outcome),
                Event::Submitted(outcome) => self.on_submitted(outcome),
            },
        }
    }

    /// The state after `event`.
    pub open spec fn next(self, event: Event) -> FrameLoopView {
        self.step(event).0
    }

    /// The action that `event` calls for.
    pub open spec fn action(self, event: Event) -> Action {
        self.step(event).1
    }
}

impl View for FrameLoop {
    type V = FrameLoopView;

    closed spec fn view(&self) -> FrameLoopView {
        FrameLoopView {
            phase: self.phase,
            resize_pending: self.resize_pending,
            swapchain_stale: self.swapchain_stale,
            resources: self.resources@,
        }
    }
}

impl FrameLoop {
    /// Sets the loop up for a fresh swapchain: builds the resources and
    /// starts between frames with both flags clear. Fails if a shader binary
    /// is not a whole number of words, the vertex shader being looked at
    /// first.
    pub fn new(
        swapchain: Swapchain,
        vertex_shader: ShaderBinary,
        fragment_shader: ShaderBinary,
        vertex_buffer: VertexBuffer,
    ) -> (result: Result<FrameLoop, ConstructionError>)
        ensures
            result is Ok <==> vertex_shader.valid() && fragment_shader.valid(),
            result matches Ok(frame_loop) ==> frame_loop@ == FrameLoopView::initial(
                ResourceSetView::initial(swapchain, vertex_shader, fragment_shader, vertex_buffer),
            ) && frame_loop@.wf(),
            result matches Err(error) ==> error == (if !vertex_shader.valid() {
                ConstructionError::MisalignedVertexShader
            } else {
                ConstructionError::MisalignedFragmentShader
            }),
    {
        match ResourceSet::new(swapchain, vertex_shader, fragment_shader, vertex_buffer) {
            Err(error) => Err(error),
            Ok(resources) => Ok(
                FrameLoop {
                    phase: Phase::Idle,
                    resize_pending: false,
                    swapchain_stale: false,
                    resources,
                },
            ),
        }
    }

    /// Takes `event` and says what to do next. The generation counter must
    /// have room for one more replacement.
    pub fn step(&mut self, event: Event) -> (action: Action)
        requires
            old(self)@.wf(),
            old(self)@.resources.framebuffer_generation < u64::MAX,
        ensures
            final(self)@ == old(self)@.next(event),
            action == old(self)@.action(event),
            final(self)@.wf(),
    {
        match self.phase {
            Phase::Closed => Action::Exit,
            Phase::Failed(stage) => Action::Abort(stage),
            _ => match event {
                Event::CloseRequested => {
                    self.phase = Phase::Closed;
                    Action::Exit
                },
                Event::Resized => {
                    self.resize_pending = true;
                    Action::Wait
                },
                Event::Other => Action::Wait,
                Event::RedrawEventsCleared => self.on_redraw(),
                Event::Recreated(outcome) => self.on_recreated(outcome),
                Event::Rebuilt(outcome) => self.on_rebuilt(outcome),
                Event::Acquired(outcome) => self.on_acquired(outcome),
                Event::Submitted(outcome) => self.on_submitted(outcome),
            },
        }
    }

    fn fail(&mut self, stage: Stage) -> (action: Action)
        requires
            old(self)@.wf(),
        ensures
            final(self)@ == old(self)@.fail(stage).0,
            action == old(self)@.fail(stage).1,
            final(self)@.wf(),
    {
        self.phase = Phase::Failed(stage);
        Action::Abort(stage)
    }

    fn on_redraw(&mut self) -> (action: Action)
        requires
            old(self)@.wf(),
        ensures
            final(self)@ == old(self)@.on_redraw().0,
            action == old(self)@.on_redraw().1,
            final(self)@.wf(),
    {
        match self.phase {
            Phase::Idle => {
                if self.resize_pending || self.swapchain_stale {
                    self.phase = Phase::Recreating;
                    Action::RecreateSwapchain
                } else {
                    self.phase = Phase::Acquiring;
                    Action::Acquire
                }
            },
            _ => Action::Wait,
        }
    }

    fn on_recreated(&mut self, outcome: RecreateOutcome) -> (action: Action)
        requires
            old(self)@.wf(),
            old(self)@.resources.framebuffer_generation < u64::MAX,
        ensures
            final(self)@ == old(self)@.on_recreated(outcome).0,
            action == old(self)@.on_recreated(outcome).1,
            final(self)@.wf(),
    {
        match self.phase {
            Phase::Recreating => match outcome {
                RecreateOutcome::Created { image_count, extent } => {
                    let resized = self.resize_pending;
                    self.resources.recreate(image_count, extent, resized);
                    self.phase = Phase::Rebuilding;
                    self.resize_pending = false;
                    self.swapchain_stale = false;
                    Action::Rebuild { pipeline: resized }
                },
                RecreateOutcome::ExtentNotSupported => {
                    self.phase = Phase::Idle;
                    Action::Wait
                },
                RecreateOutcome::Failed => self.fail(Stage::SwapchainCreation),
            },
            _ => Action::Wait,
        }
    }

    fn on_rebuilt(&mut self, outcome: RebuildOutcome) -> (action: Action)
        requires
            old(self)@.wf(),
        ensures
            final(self)@ == old(self)@.on_rebuilt(outcome).0,
            action == old(self)@.on_rebuilt(outcome).1,
            final(self)@.wf(),
    {
        match self.phase {
            Phase::Rebuilding => match outcome {
                RebuildOutcome::Done => {
                    self.phase = Phase::Acquiring;
                    Action::Acquire
                },
                RebuildOutcome::FramebufferFailed => self.fail(Stage::FramebufferCreation),
                RebuildOutcome::PipelineFailed => self.fail(Stage::PipelineCreation),
                RebuildOutcome::CommandBufferFailed => self.fail(Stage::CommandRecording),
            },
            _ => Action::Wait,
        }
    }

    fn on_acquired(&mut self, outcome: AcquireOutcome) -> (action: Action)
        requires
            old(self)@.wf(),
        ensures
            final(self)@ == old(self)@.on_acquired(outcome).0,
            action == old(self)@.on_acquired(outcome).1,
            final(self)@.wf(),
    {
        match self.phase {
            Phase::Acquiring => match outcome {
                AcquireOutcome::Acquired { image_index, suboptimal } => {
                    if image_index < self.resources.command_buffers().len() {
                        self.phase = Phase::Submitting { image_index };
                        if suboptimal {
                            self.swapchain_stale = true;
                        }
                        Action::Submit { image_index }
                    } else {
                        self.fail(Stage::ImageAcquisition)
                    }
                },
                AcquireOutcome::OutOfDate => {
                    self.phase = Phase::Idle;
                    self.swapchain_stale = true;
                    Action::Wait
                },
                AcquireOutcome::Failed => self.fail(Stage::ImageAcquisition),
            },
            _ => Action::Wait,
        }
    }

    fn on_submitted(&mut self, outcome: SubmitOutcome) -> (action: Action)
        requires
            old(self)@.wf(),
        ensures
            final(self)@ == old(self)@.on_submitted(outcome).0,
            action == old(self)@.on_submitted(outcome).1,
            final(self)@.wf(),
    {
        match self.phase {
            Phase::Submitting { .. } => match outcome {
                SubmitOutcome::Completed => {
                    self.phase = Phase::Idle;
                    Action::Wait
                },
                SubmitOutcome::OutOfDate => {
                    self.phase = Phase::Idle;
                    self.swapchain_stale = true;
                    Action::Wait
                },
                SubmitOutcome::ExecuteFailed => self.fail(Stage::Submission),
                SubmitOutcome::PresentFailed => self.fail(Stage::Presentation),
            },
            _ => Action::Wait,
        }
    }

    /// What the loop is waiting for.
    pub fn phase(&self) -> (phase: Phase)
        ensures
            phase == self@.phase,
    {
        self.phase
    }

    /// Whether a resize is waiting to be acted on.
    pub fn resize_pending(&self) -> (pending: bool)
        ensures
            pending == self@.resize_pending,
    {
        self.resize_pending
    }

    /// Whether the swapchain was called out of date or suboptimal.
    pub fn swapchain_stale(&self) -> (stale: bool)
        ensures
            stale == self@.swapchain_stale,
    {
        self.swapchain_stale
    }

    /// Whether the loop has ended.
    pub fn is_terminal(&self) -> (ended: bool)
        ensures
            ended == self@.terminal(),
    {
        match self.phase {
            Phase::Closed => true,
            Phase::Failed(_) => true,
            _ => false,
        }
    }

    /// Where the swapchain is in its life cycle.
    pub fn swapchain_state(&self) -> (state: SwapchainState)
        ensures
            state == self@.swapchain_state(),
    {
        match self.phase {
            Phase::Recreating => SwapchainState::Recreating,
            Phase::Rebuilding => SwapchainState::Recreating,
            _ => {
                if self.resize_pending || self.swapchain_stale {
                    SwapchainState::Invalidated
                } else {
                    SwapchainState::Live
                }
            },
        }
    }

    /// The resources as they stand.
    pub fn resources(&self) -> (resources: &ResourceSet)
        ensures
            resources@ == self@.resources,
    {
        &self.resources
    }
}

} // verus!
