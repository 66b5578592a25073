use vstd::prelude::*;

verus! {

/// The kinds of handle the renderer owns, in the order in which they are released.
#[derive(Clone, Copy, Debug, PartialEq, Eq, Structural)]
pub enum HandleKind {
    RenderingSemaphore,
    SubmissionFence,
    Pipeline,
    PipelineLayout,
    RenderPass,
    CommandPool,
    Swapchain,
    Surface,
    Device,
    Instance,
}

/// One handle. Pipelines, pipeline layouts and render passes are numbered
/// in the order of their creation; of every other kind there is at most one.
#[derive(Clone, Copy, Debug, PartialEq, Eq, Structural)]
pub enum Handle {
    RenderingSemaphore,
    SubmissionFence,
    Pipeline(usize),
    PipelineLayout(usize),
    RenderPass(usize),
    CommandPool,
    Swapchain,
    Surface,
    Device,
    Instance,
}

/// Which handles exist. The handles themselves stay with whoever talks to
/// the device; this ledger decides in which order they go.
#[derive(Clone, Copy, Debug, PartialEq, Eq, Structural)]
pub struct GpuResources {
    pub instance: bool,
    pub surface: bool,
    pub device: bool,
    /// Number of render passes.
    pub render_passes: usize,
    /// Number of pipeline layouts.
    pub pipeline_layouts: usize,
    /// Number of graphics pipelines.
    pub pipelines: usize,
    pub command_pool: bool,
    pub submission_fence: bool,
    pub rendering_semaphore: bool,
    /// The surface has a swapchain configured.
    pub swapchain: bool,
}

impl HandleKind {
    /// The place of the kind in the release order; a kind is released
    /// before every kind that it depends on.
    pub open spec fn rank(self) -> int {
        match self {
            HandleKind::RenderingSemaphore => 0,
            HandleKind::SubmissionFence => 1,
            HandleKind::Pipeline => 2,
            HandleKind::PipelineLayout => 3,
            HandleKind::RenderPass => 4,
            HandleKind::CommandPool => 5,
            HandleKind::Swapchain => 6,
            HandleKind::Surface => 7,
            HandleKind::Device => 8,
            HandleKind::Instance => 9,
        }
    }
}

impl Handle {
    /// The kind of the handle.
    pub open spec fn kind(self) -> HandleKind {
        match self {
            Handle::RenderingSemaphore => HandleKind::RenderingSemaphore,
            Handle::SubmissionFence => HandleKind::SubmissionFence,
            Handle::Pipeline(_) => HandleKind::Pipeline,
            Handle::PipelineLayout(_) => HandleKind::PipelineLayout,
            Handle::RenderPass(_) => HandleKind::RenderPass,
            Handle::CommandPool => HandleKind::CommandPool,
            Handle::Swapchain => HandleKind::Swapchain,
            Handle::Surface => HandleKind::Surface,
            Handle::Device => HandleKind::Device,
            Handle::Instance => HandleKind::Instance,
        }
    }

    /// The number of the handle among those of its kind.
    pub open spec fn number(self) -> int {
        match self {
            Handle::Pipeline(number) => number as int,
            Handle::PipelineLayout(number) => number as int,
            Handle::RenderPass(number) => number as int,
            _ => 0,
        }
    }

    /// The handle of `kind` with the number `number`.
    pub open spec fn of(kind: HandleKind, number: int) -> Handle {
        match kind {
            HandleKind::RenderingSemaphore => Handle::RenderingSemaphore,
            HandleKind::SubmissionFence => Handle::SubmissionFence,
            HandleKind::Pipeline => Handle::Pipeline(number as usize),
            HandleKind::PipelineLayout => Handle::PipelineLayout(number as usize),
            HandleKind::RenderPass => Handle::RenderPass(number as usize),
            HandleKind::CommandPool => Handle::CommandPool,
            HandleKind::Swapchain => Handle::Swapchain,
            HandleKind::Surface => Handle::Surface,
            HandleKind::Device => Handle::Device,
            HandleKind::Instance => Handle::Instance,
        }
    }

    /// Whether `self` is released before `other`: by kind, and within a kind by number.
    pub open spec fn goes_before(self, other: Handle) -> bool {
        self.kind().rank() < other.kind().rank() || (self.kind() == other.kind() && self.number()
            < other.number())
    }
}

/// One for a handle that is held, zero otherwise.
pub open spec fn count(held: bool) -> nat {
    if held {
        1
    } else {
        0
    }
}

impl GpuResources {
    /// The ledger with no handle in it.
    pub open spec fn empty() -> GpuResources {
        GpuResources {
            instance: false,
            surface: false,
            device: false,
            render_passes: 0,
            pipeline_layouts: 0,
            pipelines: 0,
            command_pool: false,
            submission_fence: false,
            rendering_semaphore: false,
            swapchain: false,
        }
    }

    /// Whether `handle` exists.
    pub open spec fn holds(self, handle: Handle) -> bool {
        match handle {
            Handle::RenderingSemaphore => self.rendering_semaphore,
            Handle::SubmissionFence => self.submission_fence,
            Handle::Pipeline(number) => number < self.pipelines,
            Handle::PipelineLayout(number) => number < self.pipeline_layouts,
            Handle::RenderPass(number) => number < self.render_passes,
            Handle::CommandPool => self.command_pool,
            Handle::Swapchain => self.swapchain,
            Handle::Surface => self.surface,
            Handle::Device => self.device,
            Handle::Instance => self.instance,
        }
    }

    /// Whether a handle of `kind` can still be recorded: one that can exist
    /// only once does not exist yet, and a count has room.
    pub open spec fn has_room(self, kind: HandleKind) -> bool {
        match kind {
            HandleKind::RenderingSemaphore => !self.rendering_semaphore,
            HandleKind::SubmissionFence => !self.submission_fence,
            HandleKind::Pipeline => self.pipelines < usize::MAX,
            HandleKind::PipelineLayout => self.pipeline_layouts < usize::MAX,
            HandleKind::RenderPass => self.render_passes < usize::MAX,
            HandleKind::CommandPool => !self.command_pool,
            HandleKind::Swapchain => !self.swapchain,
            HandleKind::Surface => !self.surface,
            HandleKind::Device => !self.device,
            HandleKind::Instance => !self.instance,
        }
    }

    /// The handle that the next creation of `kind` yields.
    pub open spec fn next_handle(self, kind: HandleKind) -> Handle {
        match kind {
            HandleKind::RenderingSemaphore => Handle::RenderingSemaphore,
            HandleKind::SubmissionFence => Handle::SubmissionFence,
            HandleKind::Pipeline => Handle::Pipeline(self.pipelines),
            HandleKind::PipelineLayout => Handle::PipelineLayout(self.pipeline_layouts),
            HandleKind::RenderPass => Handle::RenderPass(self.render_passes),
            HandleKind::CommandPool => Handle::CommandPool,
            HandleKind::Swapchain => Handle::Swapchain,
            HandleKind::Surface => Handle::Surface,
            HandleKind::Device => Handle::Device,
            HandleKind::Instance => Handle::Instance,
        }
    }

    /// The ledger after one more handle of `kind` was created.
    pub open spec fn with(self, kind: HandleKind) -> GpuResources {
        match kind {
            HandleKind::RenderingSemaphore => GpuResources { rendering_semaphore: true, ..self },
            HandleKind::SubmissionFence => GpuResources { submission_fence: true, ..self },
            HandleKind::Pipeline => GpuResources { pipelines: (self.pipelines + 1) as usize, ..self },
            HandleKind::PipelineLayout => GpuResources {
                pipeline_layouts: (self.pipeline_layouts + 1) as usize,
                ..self
            },
            HandleKind::RenderPass => GpuResources {
                render_passes: (self.render_passes + 1) as usize,
                ..self
            },
            HandleKind::CommandPool => GpuResources { command_pool: true, ..self },
            HandleKind::Swapchain => GpuResources { swapchain: true, ..self },
            HandleKind::Surface => GpuResources { surface: true, ..self },
            HandleKind::Device => GpuResources { device: true, ..self },
            HandleKind::Instance => GpuResources { instance: true, ..self },
        }
    }

    /// How many handles of `kind` exist.
    pub open spec fn count_of(self, kind: HandleKind) -> nat {
        match kind {
            HandleKind::RenderingSemaphore => count(self.rendering_semaphore),
            HandleKind::SubmissionFence => count(self.submission_fence),
            HandleKind::Pipeline => self.pipelines as nat,
            HandleKind::PipelineLayout => self.pipeline_layouts as nat,
            HandleKind::RenderPass => self.render_passes as nat,
            HandleKind::CommandPool => count(self.command_pool),
            HandleKind::Swapchain => count(self.swapchain),
            HandleKind::Surface => count(self.surface),
            HandleKind::Device => count(self.device),
            HandleKind::Instance => count(self.instance),
        }
    }

    /// The handles of `kind` that exist, by their numbers.
    pub open spec fn segment(self, kind: HandleKind) -> Seq<Handle> {
        Seq::new(self.count_of(kind), |number: int| Handle::of(kind, number))
    }

    /// The handles in the order of their release: semaphore, fence,
    /// pipelines, pipeline layouts, render passes, command pool, swapchain,
    /// surface, device, instance; those of one kind by their numbers.
    pub open spec fn release_order(self) -> Seq<Handle> {
        self.segment(HandleKind::RenderingSemaphore) + self.segment(HandleKind::SubmissionFence)
            + self.segment(HandleKind::Pipeline) + self.segment(HandleKind::PipelineLayout)
            + self.segment(HandleKind::RenderPass) + self.segment(HandleKind::CommandPool)
            + self.segment(HandleKind::Swapchain) + self.segment(HandleKind::Surface) + self.segment(
            HandleKind::Device,
        ) + self.segment(HandleKind::Instance)
    }

    /// Starts a ledger with no handle in it.
    pub fn new() -> (resources: GpuResources)
        ensures
            resources == GpuResources::empty(),
    {
        GpuResources {
            instance: false,
            surface: false,
            device: false,
            render_passes: 0,
            pipeline_layouts: 0,
            pipelines: 0,
            command_pool: false,
            submission_fence: false,
            rendering_semaphore: false,
            swapchain: false,
        }
    }

    /// Records that a handle of `kind` was created and says which one it
    /// is. Nothing is recorded, and `None` returned, where the ledger has no
    /// room for it.
    pub fn acquire(&mut self, kind: HandleKind) -> (handle: Option<Handle>)
        ensures
            old(self).has_room(kind) ==> handle == Some(old(self).next_handle(kind)) && *final(self) == old(
                self,
            ).with(kind),
            !old(self).has_room(kind) ==> handle is None && *final(self) == *old(self),
    {
        match kind {
            HandleKind::RenderingSemaphore => {
                if self.rendering_semaphore {
                    return None;
                }
                self.rendering_semaphore = true;
                Some(Handle::RenderingSemaphore)
            },
            HandleKind::SubmissionFence => {
                if self.submission_fence {
                    return None;
                }
                self.submission_fence = true;
                Some(Handle::SubmissionFence)
            },
            HandleKind::Pipeline => {
                if self.pipelines == usize::MAX {
                    return None;
                }
                let number: usize = self.pipelines;
                self.pipelines = number + 1;
                Some(Handle::Pipeline(number))
            },
            HandleKind::PipelineLayout => {
                if self.pipeline_layouts == usize::MAX {
                    return None;
                }
                let number: usize = self.pipeline_layouts;
                self.pipeline_layouts = number + 1;
                Some(Handle::PipelineLayout(number))
            },
            HandleKind::RenderPass => {
                if self.render_passes == usize::MAX {
                    return None;
                }
                let number: usize = self.render_passes;
                self.render_passes = number + 1;
                Some(Handle::RenderPass(number))
            },
            HandleKind::CommandPool => {
                if self.command_pool {
                    return None;
                }
                self.command_pool = true;
                Some(Handle::CommandPool)
            },
            HandleKind::Swapchain => {
                if self.swapchain {
                    return None;
                }
                self.swapchain = true;
                Some(Handle::Swapchain)
            },
            HandleKind::Surface => {
                if self.surface {
                    return None;
                }
                self.surface = true;
                Some(Handle::Surface)
            },
            HandleKind::Device => {
                if self.device {
                    return None;
                }
                self.device = true;
                Some(Handle::Device)
            },
            HandleKind::Instance => {
                if self.instance {
                    return None;
                }
                self.instance = true;
                Some(Handle::Instance)
            },
        }
    }

    /// Counts the handles of `kind`.
    pub fn held(&self, kind: HandleKind) -> (held: usize)
        ensures
            held == self.count_of(kind),
    {
        match kind {
            HandleKind::RenderingSemaphore => if self.rendering_semaphore { 1 } else { 0 },
            HandleKind::SubmissionFence => if self.submission_fence { 1 } else { 0 },
            HandleKind::Pipeline => self.pipelines,
            HandleKind::PipelineLayout => self.pipeline_layouts,
            HandleKind::RenderPass => self.render_passes,
            HandleKind::CommandPool => if self.command_pool { 1 } else { 0 },
            HandleKind::Swapchain => if self.swapchain { 1 } else { 0 },
            HandleKind::Surface => if self.surface { 1 } else { 0 },
            HandleKind::Device => if self.device { 1 } else { 0 },
            HandleKind::Instance => if self.instance { 1 } else { 0 },
        }
    }

    /// Appends the handles of `kind` to `order`, by their numbers.
    fn release_kind(&self, kind: HandleKind, order: &mut Vec<Handle>)
        ensures
            final(order)@ == old(order)@ + self.segment(kind),
    {
        let ghost head = order@;
        let held: usize = self.held(kind);
        let mut number: usize = 0;
        while number < held
            invariant
                number <= held,
                held == self.count_of(kind),
                order@ == head + Seq::new(number as nat, |n: int| Handle::of(kind, n)),
            decreases held - number,
        {
            order.push(handle_of(kind, number));
            number += 1;
        }
    }

    /// Hands out every handle for destruction, in the order of release, and
    /// leaves the ledger empty: a second call hands out nothing.
    pub fn release(&mut self) -> (order: Vec<Handle>)
        ensures
            order@ == old(self).release_order(),
            *final(self) == GpuResources::empty(),
    {
        let held: GpuResources = *self;
        *self = GpuResources::new();
        let mut order: Vec<Handle> = Vec::new();
        held.release_kind(HandleKind::RenderingSemaphore, &mut order);
        assert(order@ == held.segment(HandleKind::RenderingSemaphore));
        held.release_kind(HandleKind::SubmissionFence, &mut order);
        held.release_kind(HandleKind::Pipeline, &mut order);
        held.release_kind(HandleKind::PipelineLayout, &mut order);
        held.release_kind(HandleKind::RenderPass, &mut order);
        held.release_kind(HandleKind::CommandPool, &mut order);
        held.release_kind(HandleKind::Swapchain, &mut order);
        held.release_kind(HandleKind::Surface, &mut order);
        held.release_kind(HandleKind::Device, &mut order);
        held.release_kind(HandleKind::Instance, &mut order);
        order
    }
}

/// Builds the handle of `kind` with the number `number`.
pub fn handle_of(kind: HandleKind, number: usize) -> (handle: Handle)
    ensures
        handle == Handle::of(kind, number as int),
{
    match kind {
        HandleKind::RenderingSemaphore => Handle::RenderingSemaphore,
        HandleKind::SubmissionFence => Handle::SubmissionFence,
        HandleKind::Pipeline => Handle::Pipeline(number),
        HandleKind::PipelineLayout => Handle::PipelineLayout(number),
        HandleKind::RenderPass => Handle::RenderPass(number),
        HandleKind::CommandPool => Handle::CommandPool,
        HandleKind::Swapchain => Handle::Swapchain,
        HandleKind::Surface => Handle::Surface,
        HandleKind::Device => Handle::Device,
        HandleKind::Instance => Handle::Instance,
    }
}

/// `order` holds exactly the handles of `resources` whose kinds rank below
/// `rank`, in the order of release.
pub open spec fn released_below(resources: GpuResources, order: Seq<Handle>, rank: int) -> bool {
    &&& forall|handle: Handle|
        order.contains(handle) <==> resources.holds(handle) && handle.kind().rank() < rank
    &&& forall|i: int, j: int|
        0 <= i < j < order.len() ==> (#[trigger] order[i]).goes_before(#[trigger] order[j])
}

/// Appending the handles of the next kind keeps the order orderly.
proof fn lemma_release_next(resources: GpuResources, order: Seq<Handle>, kind: HandleKind)
    requires
        released_below(resources, order, kind.rank()),
    ensures
        released_below(resources, order + resources.segment(kind), kind.rank() + 1),
{
    let segment = resources.segment(kind);
    let longer = order + segment;
    assert forall|handle: Handle| longer.contains(handle) implies resources.holds(handle)
        && handle.kind().rank() < kind.rank() + 1 by {
        let at = choose|at: int| 0 <= at < longer.len() && longer[at] == handle;
        if at < order.len() {
            assert(order.contains(handle));
        } else {
            assert(handle == segment[at - order.len()]);
        }
    }
    assert forall|handle: Handle|
        resources.holds(handle) && handle.kind().rank() < kind.rank() + 1 implies longer.contains(
        handle,
    ) by {
        if handle.kind().rank() < kind.rank() {
            assert(order.contains(handle));
            let at = choose|at: int| 0 <= at < order.len() && order[at] == handle;
            assert(longer[at] == handle);
        } else {
            assert(handle.kind() == kind);
            assert(segment[handle.number()] == handle);
            assert(longer[order.len() + handle.number()] == handle);
        }
    }
    assert forall|i: int, j: int| 0 <= i < j < longer.len() implies (#[trigger] longer[i]).goes_before(
        #[trigger] longer[j],
    ) by {
        if j < order.len() {
            assert(order[i].goes_before(order[j]));
        } else if i < order.len() {
            assert(order.contains(order[i]));
            assert(longer[j] == segment[j - order.len()]);
        } else {
            assert(longer[i] == segment[i - order.len()]);
            assert(longer[j] == segment[j - order.len()]);
        }
    }
}

/// Teardown is total and orderly. Every handle that exists is released,
/// and nothing else; none is released twice; and the order is semaphore,
/// fence, pipelines, pipeline layouts, render passes, command pool,
/// swapchain, surface, device, instance, each kind by its numbers.
pub proof fn law_release_order(resources: GpuResources)
    ensures
        forall|handle: Handle| resources.holds(handle) <==> resources.release_order().contains(handle),
        resources.release_order().no_duplicates(),
        forall|i: int, j: int|
            0 <= i < j < resources.release_order().len() ==> (#[trigger] resources.release_order()[i]).goes_before(
                #[trigger] resources.release_order()[j],
            ),
{
    let nothing = Seq::<Handle>::empty();
    assert(released_below(resources, nothing, 0));
    lemma_release_next(resources, nothing, HandleKind::RenderingSemaphore);
    let order = nothing + resources.segment(HandleKind::RenderingSemaphore);
    assert(order == resources.segment(HandleKind::RenderingSemaphore));
    lemma_release_next(resources, order, HandleKind::SubmissionFence);
    let order = order + resources.segment(HandleKind::SubmissionFence);
    lemma_release_next(resources, order, HandleKind::Pipeline);
    let order = order + resources.segment(HandleKind::Pipeline);
    lemma_release_next(resources, order, HandleKind::PipelineLayout);
    let order = order + resources.segment(HandleKind::PipelineLayout);
    lemma_release_next(resources, order, HandleKind::RenderPass);
    let order = order + resources.segment(HandleKind::RenderPass);
    lemma_release_next(resources, order, HandleKind::CommandPool);
    let order = order + resources.segment(HandleKind::CommandPool);
    lemma_release_next(resources, order, HandleKind::Swapchain);
    let order = order + resources.segment(HandleKind::Swapchain);
    lemma_release_next(resources, order, HandleKind::Surface);
    let order = order + resources.segment(HandleKind::Surface);
    lemma_release_next(resources, order, HandleKind::Device);
    let order = order + resources.segment(HandleKind::Device);
    lemma_release_next(resources, order, HandleKind::Instance);
    let order = order + resources.segment(HandleKind::Instance);
    assert(order == resources.release_order());
    assert(released_below(resources, order, 10));
    assert forall|i: int, j: int| 0 <= i < order.len() && 0 <= j < order.len() && i != j implies order[i]
        != order[j] by {
        if i < j {
            assert(order[i].goes_before(order[j]));
        } else {
            assert(order[j].goes_before(order[i]));
        }
    }
}

/// The ledger holds exactly what was created: recording a handle adds that
/// handle, which was not there before, and nothing else comes or goes.
pub proof fn law_acquired_handles_are_held(resources: GpuResources, kind: HandleKind, handle: Handle)
    requires
        resources.has_room(kind),
    ensures
        !resources.holds(resources.next_handle(kind)),
        resources.with(kind).holds(resources.next_handle(kind)),
        resources.next_handle(kind).kind() == kind,
        resources.with(kind).holds(handle) <==> resources.holds(handle) || handle
            == resources.next_handle(kind),
{
}

/// Teardown is safe to repeat: an empty ledger holds nothing and releases nothing.
pub proof fn law_release_empties(handle: Handle)
    ensures
        !GpuResources::empty().holds(handle),
        GpuResources::empty().release_order() == Seq::<Handle>::empty(),
{
}

} // verus!
