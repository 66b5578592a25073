use crate::error::RenderError;
use crate::extent::{Extent, ImageExtent, Rect};
use crate::format::ColorFormat;
use crate::swapchain::{configure, SurfaceCapabilities, SwapchainConfig};
use vstd::prelude::*;

verus! {

/// How long a fence wait or an image acquisition may block, in nanoseconds.
pub const FRAME_TIMEOUT_NS: u64 = 1_000_000_000;

/// The submission fence is created signaled, so that the first tick does not wait in vain.
pub const FENCE_STARTS_SIGNALED: bool = true;

/// Where the renderer stands between two events.
#[derive(Clone, Copy, Debug, PartialEq, Eq)]
pub enum Phase {
    /// No frame is being worked on.
    Idle,
    /// Waiting for the fence of the frame submitted before.
    WaitPrevious,
    /// The fence was signaled; it and the command pool are being reset.
    ResetPrevious,
    /// Reconfiguring: the capabilities of the surface are being queried.
    QuerySurface,
    /// Reconfiguring: a swapchain for the extent `requested` is being set
    /// up; it will have the extent `actual`.
    Reconfigure { requested: Extent, actual: Extent },
    /// The next swapchain image is being acquired.
    Acquire,
    /// The commands of the frame are being recorded.
    Record,
    /// The recorded commands are being submitted.
    Submit,
    /// The image is being presented.
    Present,
    /// The window was closed; nothing follows.
    Closed,
    /// The device failed; nothing follows.
    Failed,
}

/// What the renderer is told: what the window did, and how the work it asked for went.
#[derive(Clone, Copy, Debug, PartialEq, Eq)]
pub enum Event {
    /// The user asked to close the window.
    CloseRequested,
    /// The window has a new physical size.
    Resized(Extent),
    /// The scale factor changed, and with it the physical size.
    ScaleFactorChanged(Extent),
    /// All pending window events were delivered.
    MainEventsCleared,
    /// The window asks for a frame.
    RedrawRequested,
    /// The fence was signaled within the timeout.
    FenceSignaled,
    /// The fence was not signaled within the timeout.
    FenceTimedOut,
    /// The fence and the command pool were reset.
    FenceReset,
    /// The surface reported its capabilities.
    SurfaceQueried(SurfaceCapabilities),
    /// The swapchain was set up as asked.
    SwapchainConfigured,
    /// The swapchain could not be set up.
    SwapchainRejected,
    /// A swapchain image was acquired.
    ImageAcquired,
    /// No swapchain image could be acquired, for whatever reason.
    ImageUnavailable,
    /// The commands of the frame were recorded.
    FrameRecorded,
    /// The commands were handed to the queue.
    FrameSubmitted,
    /// The image was handed to the presentation engine.
    FramePresented,
    /// The presentation engine refused the image.
    PresentRejected,
    /// The device reported that it is lost.
    DeviceLost,
    /// The device reported that it is out of memory.
    OutOfMemory,
}

/// What the renderer asks for in answer to an event.
#[derive(Clone, Debug, PartialEq, Eq)]
pub enum Action {
    /// Nothing; wait for the next event.
    Idle,
    /// Ask the window for a redraw.
    RequestRedraw,
    /// Leave the event loop and release every handle.
    Exit,
    /// Block on the submission fence; answer with `FenceSignaled`,
    /// `FenceTimedOut`, `DeviceLost` or `OutOfMemory`.
    WaitForFence { timeout_ns: u64 },
    /// Reset the submission fence, then the command pool as a whole,
    /// giving its memory back only if `release_resources` says so; answer
    /// with `FenceReset` or `OutOfMemory`.
    ResetFenceAndPool { release_resources: bool },
    /// Query the capabilities of the surface; answer with `SurfaceQueried`.
    QueryCapabilities,
    /// Set up the swapchain; answer with `SwapchainConfigured` or `SwapchainRejected`.
    ConfigureSwapchain(SwapchainConfig),
    /// Acquire the next image; answer with `ImageAcquired` or `ImageUnavailable`.
    AcquireImage { timeout_ns: u64 },
    /// Build a framebuffer of size `extent` over the acquired image, record
    /// the commands of a frame over `area`, then release the framebuffer;
    /// answer with `FrameRecorded` or `OutOfMemory`.
    RecordFrame { extent: ImageExtent, area: Rect },
    /// Submit the command buffer, waiting on `wait_semaphores` semaphores,
    /// and have the rendering semaphore and the submission fence signaled
    /// on completion as the two flags say; answer with `FrameSubmitted`.
    SubmitFrame { wait_semaphores: usize, signal_semaphore: bool, signal_fence: bool },
    /// Present the acquired image, after the rendering semaphore if
    /// `wait_semaphore` says so; answer with `FramePresented` or `PresentRejected`.
    PresentFrame { wait_semaphore: bool },
    /// Stop with this error.
    Abort(RenderError),
}

/// The whole state of the renderer between two events.
#[derive(Clone, Copy, Debug, PartialEq, Eq)]
pub struct RenderState {
    /// Where the current frame stands.
    pub phase: Phase,
    /// The negotiated color format; fixed at start-up.
    pub format: ColorFormat,
    /// The extent the window last reported.
    pub target_extent: Extent,
    /// The extent of the swapchain as last configured; frames are drawn at this size.
    pub surface_extent: Extent,
    /// The swapchain has to be configured before the next image is acquired.
    pub configure_swapchain: bool,
    /// The submission fence is signaled, or will be by work already
    /// submitted, and has not been reset since.
    pub fence_pending: bool,
}

impl Event {
    /// The new size of the window, where the event brings one.
    pub open spec fn new_extent(self) -> Option<Extent> {
        match self {
            Event::Resized(extent) => Some(extent),
            Event::ScaleFactorChanged(extent) => Some(extent),
            _ => None,
        }
    }

    /// The error that the event stands for, where it reports a failure: a
    /// fence that is not signaled in time means a lost device, a swapchain
    /// that cannot be set up a failed configuration, an image that cannot
    /// be acquired or presented a lost or outdated surface.
    pub open spec fn failure(self) -> Option<RenderError> {
        match self {
            Event::FenceTimedOut => Some(RenderError::DeviceLost),
            Event::DeviceLost => Some(RenderError::DeviceLost),
            Event::OutOfMemory => Some(RenderError::OutOfMemory),
            Event::SwapchainRejected => Some(RenderError::SwapchainConfigureFailed),
            Event::ImageUnavailable => Some(RenderError::SurfaceLost),
            Event::PresentRejected => Some(RenderError::SurfaceLost),
            _ => None,
        }
    }

    /// Names the error that the event stands for, if it reports a failure.
    pub fn error(&self) -> (error: Option<RenderError>)
        ensures
            error == self.failure(),
    {
        match self {
            Event::FenceTimedOut => Some(RenderError::DeviceLost),
            Event::DeviceLost => Some(RenderError::DeviceLost),
            Event::OutOfMemory => Some(RenderError::OutOfMemory),
            Event::SwapchainRejected => Some(RenderError::SwapchainConfigureFailed),
            Event::ImageUnavailable => Some(RenderError::SurfaceLost),
            Event::PresentRejected => Some(RenderError::SurfaceLost),
            _ => None,
        }
    }
}

impl RenderState {
    /// The state at start-up: nothing configured, and the fence as it was created.
    pub open spec fn initial(format: ColorFormat, extent: Extent) -> RenderState {
        RenderState {
            phase: Phase::Idle,
            format,
            target_extent: extent,
            surface_extent: extent,
            configure_swapchain: true,
            fence_pending: FENCE_STARTS_SIGNALED,
        }
    }

    /// The fence is pending exactly while it is waited for, reset, or
    /// carrying a submitted frame; between its reset and the next
    /// submission it is not.
    pub open spec fn wf(self) -> bool {
        match self.phase {
            Phase::WaitPrevious | Phase::ResetPrevious | Phase::Submit | Phase::Present => self.fence_pending,
            Phase::QuerySurface | Phase::Reconfigure { .. } | Phase::Acquire | Phase::Record =>
                !self.fence_pending,
            Phase::Idle | Phase::Closed | Phase::Failed => true,
        }
    }

    /// The renderer has stopped for good.
    pub open spec fn stopped(self) -> bool {
        self.phase is Closed || self.phase is Failed
    }

    /// The window has a new size: remember it, and mark the swapchain stale.
    pub open spec fn resized(self, extent: Extent) -> RenderState {
        RenderState { target_extent: extent, configure_swapchain: true, ..self }
    }

    /// The previous frame is out of the way: reconfigure first if the
    /// swapchain is stale, else acquire an image.
    pub open spec fn proceed(self) -> (RenderState, Action) {
        if self.configure_swapchain {
            (RenderState { phase: Phase::QuerySurface, ..self }, Action::QueryCapabilities)
        } else {
            (
                RenderState { phase: Phase::Acquire, ..self },
                Action::AcquireImage { timeout_ns: FRAME_TIMEOUT_NS },
            )
        }
    }

    /// Give the frame up before anything was submitted, and have the
    /// swapchain configured anew at the next tick.
    pub open spec fn abandon(self) -> (RenderState, Action) {
        (RenderState { phase: Phase::Idle, configure_swapchain: true, ..self }, Action::Idle)
    }

    /// Stop with `error`.
    pub open spec fn fail(self, error: RenderError) -> (RenderState, Action) {
        (RenderState { phase: Phase::Failed, ..self }, Action::Abort(error))
    }

    /// What an event does to a frame in progress, phase by phase. An event
    /// that the phase does not wait for changes nothing.
    pub open spec fn advance(self, event: Event) -> (RenderState, Action) {
        match self.phase {
            Phase::Idle => match event {
                Event::RedrawRequested => if self.fence_pending {
                    (
                        RenderState { phase: Phase::WaitPrevious, ..self },
                        Action::WaitForFence { timeout_ns: FRAME_TIMEOUT_NS },
                    )
                } else {
                    self.proceed()
                },
                _ => (self, Action::Idle),
            },
            Phase::WaitPrevious => match event {
                Event::FenceSignaled => (
                    RenderState { phase: Phase::ResetPrevious, ..self },
                    Action::ResetFenceAndPool { release_resources: false },
                ),
                Event::FenceTimedOut => self.fail(RenderError::DeviceLost),
                Event::DeviceLost => self.fail(RenderError::DeviceLost),
                Event::OutOfMemory => self.fail(RenderError::OutOfMemory),
                _ => (self, Action::Idle),
            },
            Phase::ResetPrevious => match event {
                Event::FenceReset => (RenderState { fence_pending: false, ..self }).proceed(),
                Event::OutOfMemory => self.fail(RenderError::OutOfMemory),
                _ => (self, Action::Idle),
            },
            Phase::QuerySurface => match event {
                Event::SurfaceQueried(caps) => if caps.can_configure() {
                    let config = caps.derive_config(self.format, self.target_extent);
                    (
                        RenderState {
                            phase: Phase::Reconfigure {
                                requested: self.target_extent,
                                actual: config.extent,
                            },
                            ..self
                        },
                        Action::ConfigureSwapchain(config),
                    )
                } else {
                    self.abandon()
                },
                _ => (self, Action::Idle),
            },
            Phase::Reconfigure { requested, actual } => match event {
                Event::SwapchainConfigured => (
                    RenderState {
                        phase: Phase::Acquire,
                        surface_extent: actual,
                        configure_swapchain: self.target_extent != requested,
                        ..self
                    },
                    Action::AcquireImage { timeout_ns: FRAME_TIMEOUT_NS },
                ),
                Event::SwapchainRejected => self.abandon(),
                _ => (self, Action::Idle),
            },
            Phase::Acquire => match event {
                Event::ImageAcquired => (
                    RenderState { phase: Phase::Record, ..self },
                    Action::RecordFrame {
                        extent: self.surface_extent.image_extent(),
                        area: self.surface_extent.full_rect(),
                    },
                ),
                Event::ImageUnavailable => self.abandon(),
                _ => (self, Action::Idle),
            },
            Phase::Record => match event {
                Event::FrameRecorded => (
                    RenderState { phase: Phase::Submit, fence_pending: true, ..self },
                    Action::SubmitFrame { wait_semaphores: 0, signal_semaphore: true, signal_fence: true },
                ),
                Event::OutOfMemory => self.fail(RenderError::OutOfMemory),
                _ => (self, Action::Idle),
            },
            Phase::Submit => match event {
                Event::FrameSubmitted => (
                    RenderState { phase: Phase::Present, ..self },
                    Action::PresentFrame { wait_semaphore: true },
                ),
                _ => (self, Action::Idle),
            },
            Phase::Present => match event {
                Event::FramePresented => (RenderState { phase: Phase::Idle, ..self }, Action::Idle),
                Event::PresentRejected => self.abandon(),
                _ => (self, Action::Idle),
            },
            Phase::Closed => (self, Action::Idle),
            Phase::Failed => (self, Action::Idle),
        }
    }

    /// The state after `event` and the action asked for in answer to it.
    ///
    /// A new window size is remembered in every phase. A stopped renderer
    /// does nothing else. A running one leaves on a close request, asks for
    /// a redraw when the event queue is drained, and otherwise lets the
    /// frame advance.
    pub open spec fn react(self, event: Event) -> (RenderState, Action) {
        match event {
            Event::Resized(extent) => (self.resized(extent), Action::Idle),
            Event::ScaleFactorChanged(extent) => (self.resized(extent), Action::Idle),
            Event::CloseRequested => if self.stopped() {
                (self, Action::Idle)
            } else {
                (RenderState { phase: Phase::Closed, ..self }, Action::Exit)
            },
            Event::MainEventsCleared => if self.stopped() {
                (self, Action::Idle)
            } else {
                (self, Action::RequestRedraw)
            },
            _ => self.advance(event),
        }
    }

    /// Starts a renderer for a window of physical size `extent` that will be drawn in `format`.
    pub fn new(format: ColorFormat, extent: Extent) -> (state: RenderState)
        ensures
            state == RenderState::initial(format, extent),
            state.wf(),
            state.configure_swapchain,
    {
        RenderState {
            phase: Phase::Idle,
            format,
            target_extent: extent,
            surface_extent: extent,
            configure_swapchain: true,
            fence_pending: FENCE_STARTS_SIGNALED,
        }
    }

    fn do_proceed(&mut self) -> (action: Action)
        ensures
            (*final(self), action) == old(self).proceed(),
    {
        if self.configure_swapchain {
            self.phase = Phase::QuerySurface;
            Action::QueryCapabilities
        } else {
            self.phase = Phase::Acquire;
            Action::AcquireImage { timeout_ns: FRAME_TIMEOUT_NS }
        }
    }

    fn do_abandon(&mut self) -> (action: Action)
        ensures
            (*final(self), action) == old(self).abandon(),
    {
        self.phase = Phase::Idle;
        self.configure_swapchain = true;
        Action::Idle
    }

    fn do_fail(&mut self, error: RenderError) -> (action: Action)
        ensures
            (*final(self), action) == old(self).fail(error),
    {
        self.phase = Phase::Failed;
        Action::Abort(error)
    }

    fn do_advance(&mut self, event: Event) -> (action: Action)
        ensures
            (*final(self), action) == old(self).advance(event),
    {
        match self.phase {
            Phase::Idle => match event {
                Event::RedrawRequested => {
                    if self.fence_pending {
                        self.phase = Phase::WaitPrevious;
                        Action::WaitForFence { timeout_ns: FRAME_TIMEOUT_NS }
                    } else {
                        self.do_proceed()
                    }
                },
                _ => Action::Idle,
            },
            Phase::WaitPrevious => match event {
                Event::FenceSignaled => {
                    self.phase = Phase::ResetPrevious;
                    Action::ResetFenceAndPool { release_resources: false }
                },
                Event::FenceTimedOut => self.do_fail(RenderError::DeviceLost),
                Event::DeviceLost => self.do_fail(RenderError::DeviceLost),
                Event::OutOfMemory => self.do_fail(RenderError::OutOfMemory),
                _ => Action::Idle,
            },
            Phase::ResetPrevious => match event {
                Event::FenceReset => {
                    self.fence_pending = false;
                    self.do_proceed()
                },
                Event::OutOfMemory => self.do_fail(RenderError::OutOfMemory),
                _ => Action::Idle,
            },
            Phase::QuerySurface => match event {
                Event::SurfaceQueried(caps) => match configure(&caps, self.format, self.target_extent) {
                    Ok(config) => {
                        self.phase = Phase::Reconfigure {
                            requested: self.target_extent,
                            actual: config.extent,
                        };
                        Action::ConfigureSwapchain(config)
                    },
                    Err(_) => self.do_abandon(),
                },
                _ => Action::Idle,
            },
            Phase::Reconfigure { requested, actual } => match event {
                Event::SwapchainConfigured => {
                    self.phase = Phase::Acquire;
                    self.surface_extent = actual;
                    self.configure_swapchain = !(self.target_extent == requested);
                    Action::AcquireImage { timeout_ns: FRAME_TIMEOUT_NS }
                },
                Event::SwapchainRejected => self.do_abandon(),
                _ => Action::Idle,
            },
            Phase::Acquire => match event {
                Event::ImageAcquired => {
                    self.phase = Phase::Record;
                    Action::RecordFrame {
                        extent: self.surface_extent.to_image_extent(),
                        area: self.surface_extent.to_rect(),
                    }
                },
                Event::ImageUnavailable => self.do_abandon(),
                _ => Action::Idle,
            },
            Phase::Record => match event {
                Event::FrameRecorded => {
                    self.phase = Phase::Submit;
                    self.fence_pending = true;
                    Action::SubmitFrame { wait_semaphores: 0, signal_semaphore: true, signal_fence: true }
                },
                Event::OutOfMemory => self.do_fail(RenderError::OutOfMemory),
                _ => Action::Idle,
            },
            Phase::Submit => match event {
                Event::FrameSubmitted => {
                    self.phase = Phase::Present;
                    Action::PresentFrame { wait_semaphore: true }
                },
                _ => Action::Idle,
            },
            Phase::Present => match event {
                Event::FramePresented => {
                    self.phase = Phase::Idle;
                    Action::Idle
                },
                Event::PresentRejected => self.do_abandon(),
                _ => Action::Idle,
            },
            Phase::Closed => Action::Idle,
            Phase::Failed => Action::Idle,
        }
    }

    /// Tells whether the renderer has stopped for good.
    pub fn is_stopped(&self) -> (stopped: bool)
        ensures
            stopped == self.stopped(),
    {
        match self.phase {
            Phase::Closed => true,
            Phase::Failed => true,
            _ => false,
        }
    }

    /// Takes one event, moves to the next state and says what to do.
    pub fn handle(&mut self, event: Event) -> (action: Action)
        ensures
            (*final(self), action) == old(self).react(event),
            old(self).wf() ==> final(self).wf(),
    {
        match event {
            Event::Resized(extent) => {
                self.target_extent = extent;
                self.configure_swapchain = true;
                Action::Idle
            },
            Event::ScaleFactorChanged(extent) => {
                self.target_extent = extent;
                self.configure_swapchain = true;
                Action::Idle
            },
            Event::CloseRequested => {
                if self.is_stopped() {
                    Action::Idle
                } else {
                    self.phase = Phase::Closed;
                    Action::Exit
                }
            },
            Event::MainEventsCleared => {
                if self.is_stopped() {
                    Action::Idle
                } else {
                    Action::RequestRedraw
                }
            },
            _ => self.do_advance(event),
        }
    }
}

/// The swapchain is marked for configuration at start-up, by every new
/// window size, by every failed acquisition and by every refused
/// presentation. The mark is taken off by nothing but a swapchain set up for
/// the extent that is still the window's; a set-up that a new size has
/// overtaken leaves it on.
pub proof fn law_swapchain_flag(state: RenderState, event: Event, format: ColorFormat, extent: Extent)
    ensures
        RenderState::initial(format, extent).configure_swapchain,
        state.react(Event::Resized(extent)).0.configure_swapchain,
        state.react(Event::ScaleFactorChanged(extent)).0.configure_swapchain,
        state.phase is Acquire ==> state.react(Event::ImageUnavailable).0.configure_swapchain,
        state.phase is Present ==> state.react(Event::PresentRejected).0.configure_swapchain,
        state.phase matches Phase::Reconfigure { requested, .. } ==> (state.react(
            Event::SwapchainConfigured,
        ).0.configure_swapchain <==> requested != state.target_extent),
        state.configure_swapchain && !state.react(event).0.configure_swapchain ==> {
            &&& event is SwapchainConfigured
            &&& state.phase matches Phase::Reconfigure { requested, .. }
            &&& requested == state.target_extent
        },
{
}

/// A frame is drawn at the extent the swapchain was last set up with: a
/// confirmed configuration makes its extent the surface's, and recording
/// uses the surface's extent for framebuffer, viewport and scissor.
pub proof fn law_frame_extent(state: RenderState, event: Event)
    ensures
        state.phase matches Phase::Reconfigure { actual, .. } ==> state.react(
            Event::SwapchainConfigured,
        ).0.surface_extent == actual,
        state.react(event).1 matches Action::RecordFrame { extent, area } ==> {
            &&& extent == state.surface_extent.image_extent()
            &&& area == state.surface_extent.full_rect()
        },
        state.react(event).0.surface_extent != state.surface_extent ==> event is SwapchainConfigured,
{
}

/// At most one frame is in flight. The fence and the command pool are reset
/// only in answer to a fence wait that succeeded; a frame is submitted only
/// while the fence is not pending, and makes it pending; and the fence stops
/// being pending only by that reset.
pub proof fn law_one_frame_in_flight(state: RenderState, event: Event)
    requires
        state.wf(),
    ensures
        state.react(event).0.wf(),
        state.react(event).1 is ResetFenceAndPool ==> event is FenceSignaled && state.phase is WaitPrevious,
        state.react(event).1 is SubmitFrame ==> !state.fence_pending && state.react(event).0.fence_pending,
        state.fence_pending && !state.react(event).0.fence_pending ==> event is FenceReset
            && state.phase is ResetPrevious,
        state.react(event).0.phase is ResetPrevious && !(state.phase is ResetPrevious) ==> event
            is FenceSignaled,
{
}

/// A frame that fails before its submission submits nothing: after a failed
/// reconfiguration or acquisition the renderer is idle again and the fence
/// is as it was.
pub proof fn law_abandoned_frame(state: RenderState, event: Event)
    requires
        match (state.phase, event) {
            (Phase::QuerySurface, Event::SurfaceQueried(caps)) => !caps.can_configure(),
            (Phase::Reconfigure { .. }, Event::SwapchainRejected) => true,
            (Phase::Acquire, Event::ImageUnavailable) => true,
            _ => false,
        },
    ensures
        state.react(event).1 is Idle,
        state.react(event).0.phase is Idle,
        state.react(event).0.configure_swapchain,
        state.react(event).0.fence_pending == state.fence_pending,
{
}

/// Once the renderer has stopped it stays stopped and asks for nothing; it
/// stops exactly when it asks to exit or to abort. It aborts with the error
/// of the event it answers, and only with one that is fatal: the failures
/// of a single frame are never passed on.
pub proof fn law_stopped_is_final(state: RenderState, event: Event)
    ensures
        state.stopped() ==> state.react(event).0.stopped() && state.react(event).1 is Idle,
        !state.stopped() ==> (state.react(event).0.stopped() <==> state.react(event).1 is Exit
            || state.react(event).1 is Abort),
        state.react(event).1 matches Action::Abort(error) ==> event.failure() == Some(error)
            && error.is_fatal(),
        state.react(event).0.format == state.format,
{
}

} // verus!
