use crate::error::RenderError;
use crate::resources::{GpuResources, HandleKind};
use vstd::prelude::*;

verus! {

impl HandleKind {
    /// Whether a handle of this kind is made from one of kind `other`, and
    /// so has to be destroyed before it.
    pub open spec fn depends_on(self, other: HandleKind) -> bool {
        match self {
            HandleKind::Instance => false,
            HandleKind::Surface => other is Instance,
            HandleKind::Device => other is Instance,
            HandleKind::Swapchain => other is Surface || other is Device,
            HandleKind::CommandPool => other is Device,
            HandleKind::RenderPass => other is Device,
            HandleKind::PipelineLayout => other is Device,
            HandleKind::Pipeline => other is Device || other is RenderPass || other is PipelineLayout,
            HandleKind::SubmissionFence => other is Device,
            HandleKind::RenderingSemaphore => other is Device,
        }
    }
}

/// The kinds of handle in the order in which start-up creates them. The
/// swapchain is not among them: the first frame configures it.
pub open spec fn creation_order() -> Seq<HandleKind> {
    seq![
        HandleKind::Instance,
        HandleKind::Surface,
        HandleKind::Device,
        HandleKind::CommandPool,
        HandleKind::RenderPass,
        HandleKind::PipelineLayout,
        HandleKind::Pipeline,
        HandleKind::SubmissionFence,
        HandleKind::RenderingSemaphore,
    ]
}

/// The position in `creation_order` of the first kind, from `from` on, of
/// which `resources` has no handle; the length of the order if there is none.
pub open spec fn first_missing(resources: GpuResources, from: int) -> int
    decreases creation_order().len() - from,
{
    if from < 0 || from >= creation_order().len() {
        creation_order().len() as int
    } else if resources.count_of(creation_order()[from]) == 0 {
        from
    } else {
        first_missing(resources, from + 1)
    }
}

impl GpuResources {
    /// The kind of handle that start-up creates next, if it is not complete.
    pub open spec fn missing(self) -> Option<HandleKind> {
        if first_missing(self, 0) < creation_order().len() {
            Some(creation_order()[first_missing(self, 0)])
        } else {
            None
        }
    }

    /// Whatever a handle that exists was made from exists too.
    pub open spec fn closed(self) -> bool {
        forall|kind: HandleKind, other: HandleKind|
            self.count_of(kind) > 0 && #[trigger] kind.depends_on(other) ==> self.count_of(other) > 0
    }

    /// Says which kind of handle start-up has to create next: the first in
    /// the order of creation of which none exists yet. `None` when
    /// start-up is complete.
    pub fn next_to_create(&self) -> (kind: Option<HandleKind>)
        ensures
            kind == self.missing(),
    {
        proof {
            reveal_with_fuel(first_missing, 10);
        }
        if !self.instance {
            Some(HandleKind::Instance)
        } else if !self.surface {
            Some(HandleKind::Surface)
        } else if !self.device {
            Some(HandleKind::Device)
        } else if !self.command_pool {
            Some(HandleKind::CommandPool)
        } else if self.render_passes == 0 {
            Some(HandleKind::RenderPass)
        } else if self.pipeline_layouts == 0 {
            Some(HandleKind::PipelineLayout)
        } else if self.pipelines == 0 {
            Some(HandleKind::Pipeline)
        } else if !self.submission_fence {
            Some(HandleKind::SubmissionFence)
        } else if !self.rendering_semaphore {
            Some(HandleKind::RenderingSemaphore)
        } else {
            None
        }
    }
}

/// The error that ends start-up when a handle of `kind` cannot be had,
/// unless the step itself names a more precise one. Without instance there
/// is no adapter; surface and device are the device context; a pipeline
/// that fails was not linked; a swapchain that fails was not configured;
/// everything else is an allocation.
pub open spec fn error_of(kind: HandleKind) -> RenderError {
    match kind {
        HandleKind::Instance => RenderError::NoCompatibleAdapter,
        HandleKind::Surface => RenderError::DeviceCreationFailed,
        HandleKind::Device => RenderError::DeviceCreationFailed,
        HandleKind::Pipeline => RenderError::PipelineCreateFailed,
        HandleKind::Swapchain => RenderError::SwapchainConfigureFailed,
        _ => RenderError::OutOfMemory,
    }
}

/// Names the error that ends start-up when a handle of `kind` cannot be had.
pub fn creation_error(kind: HandleKind) -> (error: RenderError)
    ensures
        error == error_of(kind),
{
    match kind {
        HandleKind::Instance => RenderError::NoCompatibleAdapter,
        HandleKind::Surface => RenderError::DeviceCreationFailed,
        HandleKind::Device => RenderError::DeviceCreationFailed,
        HandleKind::Pipeline => RenderError::PipelineCreateFailed,
        HandleKind::Swapchain => RenderError::SwapchainConfigureFailed,
        _ => RenderError::OutOfMemory,
    }
}

/// Start-up creates nothing before what it is made from: in a ledger that
/// is closed, everything the next kind depends on exists, there is room to
/// record it, and the ledger is closed again once it is recorded.
pub proof fn law_creation_follows_dependencies(resources: GpuResources, other: HandleKind)
    requires
        resources.closed(),
    ensures
        GpuResources::empty().closed(),
        GpuResources::empty().missing() == Some(HandleKind::Instance),
        resources.missing() matches Some(kind) ==> {
            &&& resources.count_of(kind) == 0
            &&& resources.has_room(kind)
            &&& (kind.depends_on(other) ==> resources.count_of(other) > 0)
            &&& resources.with(kind).closed()
            &&& resources.with(kind).holds(resources.next_handle(kind))
        },
        resources.missing() is None ==> forall|at: int|
            0 <= at < creation_order().len() ==> resources.count_of(#[trigger] creation_order()[at]) > 0,
{
    reveal_with_fuel(first_missing, 10);
    match resources.missing() {
        Some(kind) => {
            assert(kind.depends_on(HandleKind::Instance) ==> resources.count_of(HandleKind::Instance) > 0);
            assert(kind.depends_on(HandleKind::Device) ==> resources.count_of(HandleKind::Device) > 0);
            assert forall|a: HandleKind, b: HandleKind|
                resources.with(kind).count_of(a) > 0 && #[trigger] a.depends_on(b) implies resources.with(
                kind,
            ).count_of(b) > 0 by {
                if resources.count_of(a) > 0 {
                    assert(resources.count_of(b) > 0);
                }
            }
        },
        None => {},
    }
}

/// Dependents are destroyed before their dependencies: wherever two
/// handles stand in the release order, one that was made from the other
/// stands before it.
pub proof fn law_dependents_go_first(resources: GpuResources, dependent: int, dependency: int)
    requires
        0 <= dependent < resources.release_order().len(),
        0 <= dependency < resources.release_order().len(),
        resources.release_order()[dependent].kind().depends_on(resources.release_order()[dependency].kind()),
    ensures
        dependent < dependency,
{
    crate::resources::law_release_order(resources);
    let order = resources.release_order();
    if dependency < dependent {
        assert(order[dependency].goes_before(order[dependent]));
    }
}

} // verus!
