//! What holds of the presentation loop, one step at a time and over whole
//! runs of events.

use vstd::prelude::*;
use crate::frame_loop::{
    AcquireOutcome,
    Action,
    Event,
    FrameLoopView,
    Phase,
    RebuildOutcome,
    RecreateOutcome,
    Stage,
    SubmitOutcome,
    SwapchainState,
};
use crate::resources::Extent;

verus! {

/// The state after the events of `events`, taken one after the other.
pub open spec fn run(start: FrameLoopView, events: Seq<Event>) -> FrameLoopView
    decreases events.len(),
{
    if events.len() == 0 {
        start
    } else {
        run(start, events.drop_last()).next(events.last())
    }
}

/// The action that the last of `events` calls for, after the ones before it.
pub open spec fn last_action(start: FrameLoopView, events: Seq<Event>) -> Action
    recommends
        events.len() > 0,
{
    run(start, events.drop_last()).action(events.last())
}

/// In `state`, `event` reports a new swapchain while no resize is pending:
/// the one step after which the command buffers are bound to framebuffers
/// that are no longer live.
pub open spec fn replaces_without_resize(state: FrameLoopView, event: Event) -> bool {
    &&& state.phase is Recreating
    &&& !state.resize_pending
    &&& event matches Event::Recreated(RecreateOutcome::Created { .. })
}

/// `event` reports a failure that nothing can be done about.
pub open spec fn reports_failure(state: FrameLoopView, event: Event) -> bool {
    ||| event == Event::Recreated(RecreateOutcome::Failed)
    ||| event matches Event::Rebuilt(outcome) && outcome != RebuildOutcome::Done
    ||| event == Event::Acquired(AcquireOutcome::Failed)
    ||| event == Event::Submitted(SubmitOutcome::ExecuteFailed)
    ||| event == Event::Submitted(SubmitOutcome::PresentFailed)
    ||| event matches Event::Acquired(AcquireOutcome::Acquired { image_index, .. })
        && image_index >= state.resources.command_buffers.len()
}

/// Every step keeps the state well formed.
pub proof fn lemma_step_preserves_wf(state: FrameLoopView, event: Event)
    requires
        state.wf(),
    ensures
        state.next(event).wf(),
{
}

/// Every run keeps the state well formed.
pub proof fn lemma_run_preserves_wf(start: FrameLoopView, events: Seq<Event>)
    requires
        start.wf(),
    ensures
        run(start, events).wf(),
    decreases events.len(),
{
    if events.len() > 0 {
        lemma_run_preserves_wf(start, events.drop_last());
        lemma_step_preserves_wf(run(start, events.drop_last()), events.last());
    }
}

/// After any run of events, resizes among them or not, there are as many
/// framebuffers as the swapchain has images.
pub proof fn lemma_framebuffer_count_follows_images(start: FrameLoopView, events: Seq<Event>)
    requires
        start.wf(),
    ensures
        run(start, events).resources.framebuffers.len() == run(
            start,
            events,
        ).resources.swapchain.image_count,
{
    lemma_run_preserves_wf(start, events);
}

/// A frame is submitted only in answer to an acquired image, with the index
/// of that image, through a command buffer that exists and that was recorded
/// against the live pipeline. The resources are as they were when the image
/// was acquired.
pub proof fn lemma_submit_follows_acquire(state: FrameLoopView, event: Event)
    requires
        state.wf(),
        state.action(event) is Submit,
    ensures
        state.phase is Acquiring,
        event matches Event::Acquired(AcquireOutcome::Acquired { image_index, .. })
            && state.action(event) == (Action::Submit { image_index }) && image_index
            < state.resources.command_buffers.len()
            && state.resources.command_buffers[image_index as int].pipeline
            == state.resources.pipeline,
        state.resources.recorded_pipeline == state.resources.pipeline_generation,
        state.next(event).resources == state.resources,
        state.next(event).phase == (Phase::Submitting {
            image_index: state.action(event)->image_index,
        }),
{
}

/// While the command buffers are current, the one that is submitted is bound
/// to the live framebuffer of the acquired image, and its generation tags
/// equal the live generations.
pub proof fn lemma_submit_uses_live_generation(state: FrameLoopView, event: Event)
    requires
        state.wf(),
        state.resources.is_current(),
        state.action(event) is Submit,
    ensures
        ({
            let index = state.action(event)->image_index as int;
            &&& index < state.resources.framebuffers.len()
            &&& state.resources.command_buffers[index].framebuffer
                == state.resources.framebuffers[index]
            &&& state.resources.command_buffers[index].pipeline == state.resources.pipeline
            &&& state.resources.recorded_framebuffers == state.resources.framebuffer_generation
            &&& state.resources.recorded_pipeline == state.resources.pipeline_generation
        }),
{
}

/// The command buffers stay current over every step but the replacement of
/// the swapchain with no resize pending.
pub proof fn lemma_step_keeps_current(state: FrameLoopView, event: Event)
    requires
        state.wf(),
        state.resources.is_current(),
        !replaces_without_resize(state, event),
    ensures
        state.next(event).resources.is_current(),
{
}

/// Over a run in which the swapchain is never replaced without a resize
/// pending, the command buffers stay current, so that no frame is submitted
/// against a retired framebuffer or pipeline.
pub proof fn lemma_run_keeps_current(start: FrameLoopView, events: Seq<Event>)
    requires
        start.wf(),
        start.resources.is_current(),
        forall|k: int|
            0 <= k < events.len() ==> !replaces_without_resize(
                run(start, #[trigger] events.take(k)),
                events[k],
            ),
    ensures
        run(start, events).wf(),
        run(start, events).resources.is_current(),
    decreases events.len(),
{
    if events.len() > 0 {
        let before = events.drop_last();
        assert forall|k: int| 0 <= k < before.len() implies !replaces_without_resize(
            run(start, #[trigger] before.take(k)),
            before[k],
        ) by {
            assert(before.take(k) =~= events.take(k));
        }
        lemma_run_keeps_current(start, before);
        assert(events.take(events.len() - 1) =~= before);
        lemma_step_keeps_current(run(start, before), events.last());
        lemma_step_preserves_wf(run(start, before), events.last());
    }
}

/// An extent that is not supported at the moment is not fatal: the frame
/// ends, nothing is acquired or submitted, the flags and the resources stay
/// as they were, and the next frame tries the replacement again.
pub proof fn lemma_unsupported_extent_is_retried(state: FrameLoopView)
    requires
        state.wf(),
        state.phase is Recreating,
    ensures
        ({
            let event = Event::Recreated(RecreateOutcome::ExtentNotSupported);
            let after = state.next(event);
            &&& state.action(event) == Action::Wait
            &&& after.phase == Phase::Idle
            &&& !after.terminal()
            &&& after.resize_pending == state.resize_pending
            &&& after.swapchain_stale == state.swapchain_stale
            &&& after.resources == state.resources
            &&& after.swapchain_state() == SwapchainState::Invalidated
            &&& after.action(Event::RedrawEventsCleared) == Action::RecreateSwapchain
        }),
{
}

/// The loop fails only on a report of failure: an unsupported extent, an
/// out-of-date or suboptimal swapchain, a resize or any other window event
/// never ends it with an error.
pub proof fn lemma_only_failures_are_fatal(state: FrameLoopView, event: Event)
    requires
        !state.terminal(),
        state.next(event).phase is Failed || state.action(event) is Abort,
    ensures
        reports_failure(state, event),
{
}

/// An out-of-date swapchain at acquisition ends the frame without a
/// submission and marks the swapchain stale. The next frame replaces the
/// swapchain instead of acquiring from it, and once that has succeeded the
/// flag is clear and the next image is acquired: one replacement, counted by
/// the generation, stands between the two acquisitions.
pub proof fn lemma_stale_acquire_recreates_once(
    state: FrameLoopView,
    image_count: usize,
    extent: Extent,
)
    requires
        state.wf(),
        state.phase is Acquiring,
    ensures
        ({
            let stale = state.next(Event::Acquired(AcquireOutcome::OutOfDate));
            let recreating = stale.next(Event::RedrawEventsCleared);
            let created = Event::Recreated(RecreateOutcome::Created { image_count, extent });
            let rebuilding = recreating.next(created);
            let acquiring = rebuilding.next(Event::Rebuilt(RebuildOutcome::Done));
            &&& state.action(Event::Acquired(AcquireOutcome::OutOfDate)) == Action::Wait
            &&& stale.phase == Phase::Idle
            &&& stale.swapchain_stale
            &&& stale.resources == state.resources
            &&& stale.action(Event::RedrawEventsCleared) == Action::RecreateSwapchain
            &&& recreating.action(created) == (Action::Rebuild { pipeline: state.resize_pending })
            &&& !rebuilding.swapchain_stale
            &&& !rebuilding.resize_pending
            &&& rebuilding.action(Event::Rebuilt(RebuildOutcome::Done)) == Action::Acquire
            &&& acquiring.phase == Phase::Acquiring
            &&& acquiring.swapchain_state() == SwapchainState::Live
            &&& acquiring.resources.framebuffer_generation
                == state.resources.framebuffer_generation + 1
        }),
{
}

/// Between frames, an image is acquired only from a live swapchain: while a
/// flag is set, the frame begins with a replacement.
pub proof fn lemma_redraw_acquires_only_when_live(state: FrameLoopView)
    ensures
        state.action(Event::RedrawEventsCleared) == Action::Acquire ==> !state.resize_pending
            && !state.swapchain_stale && state.phase is Idle,
        state.phase is Idle && state.invalidated() ==> state.action(Event::RedrawEventsCleared)
            == Action::RecreateSwapchain,
{
}

/// A flag that is set is cleared by nothing but a successful replacement of
/// the swapchain, which clears both and moves the generation on by one.
pub proof fn lemma_flags_cleared_by_replacement_only(state: FrameLoopView, event: Event)
    requires
        (state.resize_pending && !state.next(event).resize_pending) || (state.swapchain_stale
            && !state.next(event).swapchain_stale),
    ensures
        state.phase is Recreating,
        event matches Event::Recreated(RecreateOutcome::Created { .. }),
        !state.next(event).invalidated(),
        state.next(event).resources.framebuffer_generation
            == state.resources.framebuffer_generation + 1,
{
}

/// Any number of resizes before the next frame set the one flag, and change
/// nothing else.
pub proof fn lemma_resizes_coalesce(state: FrameLoopView)
    requires
        !state.terminal(),
    ensures
        state.next(Event::Resized).resize_pending,
        state.action(Event::Resized) == Action::Wait,
        state.next(Event::Resized).next(Event::Resized) == state.next(Event::Resized),
        state.next(Event::Resized).phase == state.phase,
        state.next(Event::Resized).swapchain_stale == state.swapchain_stale,
        state.next(Event::Resized).resources == state.resources,
{
}

/// A close request ends the loop from wherever it is.
pub proof fn lemma_close_ends_loop(state: FrameLoopView)
    requires
        !(state.phase is Failed),
    ensures
        state.action(Event::CloseRequested) == Action::Exit,
        state.next(Event::CloseRequested).phase == Phase::Closed,
{
}

/// Once the loop has ended, no run of events changes the state.
pub proof fn lemma_ended_loop_stays(start: FrameLoopView, events: Seq<Event>)
    requires
        start.terminal(),
    ensures
        run(start, events) == start,
    decreases events.len(),
{
    if events.len() > 0 {
        lemma_ended_loop_stays(start, events.drop_last());
    }
}

/// After the window was closed, whatever is reported, the answer is to
/// leave: nothing is acquired and nothing is submitted any more.
pub proof fn lemma_nothing_after_close(start: FrameLoopView, events: Seq<Event>)
    requires
        start.phase is Closed,
        events.len() > 0,
    ensures
        last_action(start, events) == Action::Exit,
{
    lemma_ended_loop_stays(start, events.drop_last());
}

/// A suboptimal image is still drawn to and presented, and the swapchain is
/// marked stale. Once that frame has completed, the next one begins with a
/// replacement, and the one after the replacement acquires at once.
pub proof fn lemma_suboptimal_frame_is_presented(
    state: FrameLoopView,
    image_index: usize,
    image_count: usize,
    extent: Extent,
)
    requires
        state.wf(),
        state.phase is Acquiring,
        image_index < state.resources.command_buffers.len(),
    ensures
        ({
            let acquired = Event::Acquired(
                AcquireOutcome::Acquired { image_index, suboptimal: true },
            );
            let created = Event::Recreated(RecreateOutcome::Created { image_count, extent });
            let done = Event::Rebuilt(RebuildOutcome::Done);
            let submitting = state.next(acquired);
            let idle = submitting.next(Event::Submitted(SubmitOutcome::Completed));
            let recreating = idle.next(Event::RedrawEventsCleared);
            let acquiring = recreating.next(created).next(done);
            &&& state.action(acquired) == (Action::Submit { image_index })
            &&& submitting.swapchain_stale
            &&& submitting.action(Event::Submitted(SubmitOutcome::Completed)) == Action::Wait
            &&& idle.phase == Phase::Idle
            &&& idle.action(Event::RedrawEventsCleared) == Action::RecreateSwapchain
            &&& recreating.next(created).action(done) == Action::Acquire
            &&& !acquiring.swapchain_stale
            &&& acquiring.resources.framebuffer_generation
                == state.resources.framebuffer_generation + 1
        }),
{
}

/// One frame is in flight at most: while a submission is awaited nothing is
/// acquired and nothing else is submitted.
pub proof fn lemma_single_frame_in_flight(state: FrameLoopView, event: Event)
    requires
        state.phase is Submitting,
    ensures
        !(state.action(event) is Acquire),
        !(state.action(event) is Submit),
        !(state.action(event) is RecreateSwapchain),
        !(state.action(event) is Rebuild),
{
}

/// A second replacement, with the surface as it was at the first, gives the
/// loop the resources that the first one gave it.
pub proof fn lemma_second_replacement_is_equivalent(
    state: FrameLoopView,
    image_count: usize,
    extent: Extent,
)
    requires
        state.wf(),
        state.phase is Recreating,
    ensures
        ({
            let created = Event::Recreated(RecreateOutcome::Created { image_count, extent });
            let once = state.next(created);
            let again = (FrameLoopView {
                phase: Phase::Recreating,
                swapchain_stale: true,
                ..once
            }).next(created);
            &&& again.resources.equivalent(once.resources)
            &&& again.resources.framebuffers.len() == once.resources.framebuffers.len()
            &&& again.resources.command_buffers.len() == once.resources.command_buffers.len()
        }),
{
}

/// `event` marks the swapchain for replacement: a resize, an out-of-date
/// report, or an image that is suboptimal.
pub open spec fn invalidates(event: Event) -> bool {
    ||| event == Event::Resized
    ||| event == Event::Acquired(AcquireOutcome::OutOfDate)
    ||| event == Event::Submitted(SubmitOutcome::OutOfDate)
    ||| event matches Event::Acquired(AcquireOutcome::Acquired { suboptimal, .. }) && suboptimal
}

/// Where a loop stands that was invalidated at framebuffer generation
/// `generation`: either the replacement is still owed, or it was made once
/// and the swapchain is live, or the loop has ended.
pub open spec fn replaced_at_most_once(state: FrameLoopView, generation: nat) -> bool {
    ||| state.terminal()
    ||| {
        &&& state.invalidated()
        &&& state.resources.framebuffer_generation == generation
        &&& state.phase is Idle || state.phase is Recreating
    }
    ||| {
        &&& !state.invalidated()
        &&& state.resources.framebuffer_generation == generation + 1
        &&& !(state.phase is Recreating)
    }
}

/// After the swapchain was marked for replacement, and for as long as
/// nothing marks it again, it is replaced exactly once before an image is
/// acquired or a frame submitted, however many events come in between and
/// however often the replacement is put off.
pub proof fn lemma_one_replacement_before_next_frame(start: FrameLoopView, events: Seq<Event>)
    requires
        start.wf(),
        start.phase is Idle,
        start.invalidated(),
        forall|k: int| 0 <= k < events.len() ==> !invalidates(#[trigger] events[k]),
    ensures
        replaced_at_most_once(run(start, events), start.resources.framebuffer_generation),
        run(start, events).phase is Acquiring || run(start, events).phase is Submitting ==> run(
            start,
            events,
        ).resources.framebuffer_generation == start.resources.framebuffer_generation + 1,
        events.len() > 0 && (last_action(start, events) is Acquire || last_action(
            start,
            events,
        ) is Submit) ==> run(start, events).resources.framebuffer_generation
            == start.resources.framebuffer_generation + 1,
    decreases events.len(),
{
    if events.len() > 0 {
        let before = events.drop_last();
        assert forall|k: int| 0 <= k < before.len() implies !invalidates(
            #[trigger] before[k],
        ) by {
            assert(before[k] == events[k]);
        }
        lemma_one_replacement_before_next_frame(start, before);
        assert(!invalidates(events[events.len() - 1]));
    }
}

} // verus!
