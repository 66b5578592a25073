use crate::extent::Extent;
use crate::format::ColorFormat;
use crate::frame::{Action, Event, RenderState};
use vstd::prelude::*;

verus! {

/// The state reached from `start` after `events`, taken in order.
pub open spec fn run(start: RenderState, events: Seq<Event>) -> RenderState
    decreases events.len(),
{
    if events.len() == 0 {
        start
    } else {
        run(start, events.drop_last()).react(events.last()).0
    }
}

/// The action given in answer to event number `at` of `events`.
pub open spec fn answer(start: RenderState, events: Seq<Event>, at: int) -> Action {
    run(start, events.take(at)).react(events[at]).1
}

/// The extent of the window after `events`, if it was `first` before them:
/// the one brought by the last resize or scale change, or `first` still.
pub open spec fn latest_extent(first: Extent, events: Seq<Event>) -> Extent
    decreases events.len(),
{
    if events.len() == 0 {
        first
    } else {
        match events.last().new_extent() {
            Some(extent) => extent,
            None => latest_extent(first, events.drop_last()),
        }
    }
}

/// Event number `at` reports the fence signaled and is answered by its reset.
pub open spec fn fence_observed(start: RenderState, events: Seq<Event>, at: int) -> bool {
    events[at] is FenceSignaled && answer(start, events, at) is ResetFenceAndPool
}

/// Running one event more is reacting to it in the state reached before.
pub proof fn lemma_run_step(start: RenderState, events: Seq<Event>, at: int)
    requires
        0 <= at < events.len(),
    ensures
        run(start, events.take(at + 1)) == run(start, events.take(at)).react(events[at]).0,
{
    let longer = events.take(at + 1);
    assert(longer.drop_last() == events.take(at));
    assert(longer.last() == events[at]);
}

/// Whatever happens, the renderer keeps its format, stays well-formed, and
/// has the last reported window size as its target.
pub proof fn law_run_keeps_track(start: RenderState, events: Seq<Event>)
    ensures
        run(start, events).format == start.format,
        run(start, events).target_extent == latest_extent(start.target_extent, events),
        start.wf() ==> run(start, events).wf(),
    decreases events.len(),
{
    if events.len() > 0 {
        law_run_keeps_track(start, events.drop_last());
    }
}

/// No stale extent is ever committed: whenever the renderer asks for the
/// swapchain to be configured, it does so in answer to a capability report,
/// and the configuration is the one derived from that report for the
/// renderer's format and the window size of the most recent resize or scale
/// change before the request (the start-up size if there was none).
pub proof fn law_configures_latest_extent(start: RenderState, events: Seq<Event>, event: Event)
    ensures
        run(start, events).react(event).1 matches Action::ConfigureSwapchain(config) ==> {
            &&& run(start, events).phase is QuerySurface
            &&& event matches Event::SurfaceQueried(caps)
            &&& caps.can_configure()
            &&& config == caps.derive_config(start.format, latest_extent(start.target_extent, events))
            &&& config.extent == caps.actual_extent(latest_extent(start.target_extent, events))
        },
{
    law_run_keeps_track(start, events);
}

/// After a submission, and until the fence is seen signaled, the fence stays pending.
proof fn lemma_pending_until_observed(start: RenderState, events: Seq<Event>, first: int, until: int)
    requires
        start.wf(),
        0 <= first < until <= events.len(),
        answer(start, events, first) is SubmitFrame,
        forall|k: int| first < k < until ==> !fence_observed(start, events, k),
    ensures
        run(start, events.take(until)).wf(),
        run(start, events.take(until)).fence_pending,
        !(run(start, events.take(until)).phase is ResetPrevious),
    decreases until - first,
{
    let at = until - 1;
    let before = run(start, events.take(at));
    law_run_keeps_track(start, events.take(at));
    lemma_run_step(start, events, at);
    if at > first {
        lemma_pending_until_observed(start, events, first, at);
        assert(!fence_observed(start, events, at));
    }
}

/// Between two submissions the fence was seen signaled: if two events are
/// each answered by the submission of a frame, an event between them
/// reports the fence signaled and is answered by the reset of fence and
/// command pool.
pub proof fn law_submissions_are_fenced(start: RenderState, events: Seq<Event>, first: int, second: int)
    requires
        start.wf(),
        0 <= first < second < events.len(),
        answer(start, events, first) is SubmitFrame,
        answer(start, events, second) is SubmitFrame,
    ensures
        exists|k: int| first < k < second && fence_observed(start, events, k),
{
    if !(exists|k: int| first < k < second && fence_observed(start, events, k)) {
        lemma_pending_until_observed(start, events, first, second);
        assert(false);
    }
}

/// The swapchain is stale and the frame, if one has begun, has not come to acquire an image.
pub open spec fn awaits_configuration(state: RenderState) -> bool {
    state.configure_swapchain && (state.phase is Idle || state.phase is WaitPrevious || state.phase
        is ResetPrevious || state.phase is QuerySurface || state.phase is Reconfigure)
}

/// Event number `at` confirms a swapchain that was being set up.
pub open spec fn configuration_confirmed(start: RenderState, events: Seq<Event>, at: int) -> bool {
    events[at] is SwapchainConfigured && run(start, events.take(at)).phase is Reconfigure
}

/// Event number `at` begins a tick: a redraw request that finds the renderer idle.
pub open spec fn tick_begun(start: RenderState, events: Seq<Event>, at: int) -> bool {
    events[at] is RedrawRequested && run(start, events.take(at)).phase is Idle
}

/// The action works on an image of the swapchain.
pub open spec fn uses_swapchain(action: Action) -> bool {
    action is AcquireImage || action is RecordFrame || action is SubmitFrame || action is PresentFrame
}

/// Until a configuration is confirmed, a stale swapchain stays stale and the frame does not get to it.
proof fn lemma_waits_for_configuration(start: RenderState, events: Seq<Event>, until: int)
    requires
        awaits_configuration(start),
        0 <= until <= events.len(),
        forall|k: int| 0 <= k < until ==> !configuration_confirmed(start, events, k),
    ensures
        awaits_configuration(run(start, events.take(until))) || run(start, events.take(until)).stopped(),
    decreases until,
{
    if until > 0 {
        lemma_waits_for_configuration(start, events, until - 1);
        lemma_run_step(start, events, until - 1);
        assert(!configuration_confirmed(start, events, until - 1));
    }
}

/// A stale swapchain is never drawn to. If the swapchain is marked for
/// configuration when a tick has not yet come to acquire an image, then
/// whatever is later acquired, recorded, submitted or presented comes
/// after a configuration was confirmed.
pub proof fn law_no_frame_on_a_stale_swapchain(start: RenderState, events: Seq<Event>, at: int)
    requires
        awaits_configuration(start),
        0 <= at < events.len(),
        uses_swapchain(answer(start, events, at)),
    ensures
        exists|k: int| 0 <= k <= at && configuration_confirmed(start, events, k),
{
    if !(exists|k: int| 0 <= k <= at && configuration_confirmed(start, events, k)) {
        lemma_waits_for_configuration(start, events, at);
        assert(!configuration_confirmed(start, events, at));
        assert(false);
    }
}

/// Nothing is drawn before the swapchain was configured for the first
/// time: from start-up on, whatever is acquired, recorded, submitted or
/// presented comes after a configuration was confirmed.
pub proof fn law_first_frame_is_configured(format: ColorFormat, extent: Extent, events: Seq<Event>, at: int)
    requires
        0 <= at < events.len(),
        uses_swapchain(answer(RenderState::initial(format, extent), events, at)),
    ensures
        exists|k: int|
            0 <= k <= at && configuration_confirmed(RenderState::initial(format, extent), events, k),
{
    law_no_frame_on_a_stale_swapchain(RenderState::initial(format, extent), events, at);
}

/// After a configuration was asked for, and until the next tick begins, the renderer does not query the surface.
proof fn lemma_configured_until_next_tick(start: RenderState, events: Seq<Event>, first: int, until: int)
    requires
        0 <= first < until <= events.len(),
        answer(start, events, first) is ConfigureSwapchain,
        forall|k: int| first < k < until ==> !tick_begun(start, events, k),
    ensures
        !(run(start, events.take(until)).phase is QuerySurface),
        !(run(start, events.take(until)).phase is WaitPrevious),
        !(run(start, events.take(until)).phase is ResetPrevious),
    decreases until - first,
{
    let at = until - 1;
    lemma_run_step(start, events, at);
    if at > first {
        lemma_configured_until_next_tick(start, events, first, at);
        assert(!tick_begun(start, events, at));
    }
}

/// The swapchain is configured at most once in a tick: between two
/// requests to configure it, a new tick begins.
pub proof fn law_one_configuration_per_tick(start: RenderState, events: Seq<Event>, first: int, second: int)
    requires
        0 <= first < second < events.len(),
        answer(start, events, first) is ConfigureSwapchain,
        answer(start, events, second) is ConfigureSwapchain,
    ensures
        exists|k: int| first < k < second && tick_begun(start, events, k),
{
    if !(exists|k: int| first < k < second && tick_begun(start, events, k)) {
        lemma_configured_until_next_tick(start, events, first, second);
        assert(false);
    }
}

} // verus!
