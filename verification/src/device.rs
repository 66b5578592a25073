use crate::error::RenderError;
use vstd::prelude::*;

verus! {

/// What the queues of a family can do.
#[derive(Clone, Copy, Debug, PartialEq, Eq, Structural)]
pub enum QueueType {
    /// Everything.
    General,
    /// Graphics and transfer.
    Graphics,
    /// Compute and transfer.
    Compute,
    /// Transfer only.
    Transfer,
}

/// A queue family of the adapter, as far as the choice among them goes.
#[derive(Clone, Copy, Debug, PartialEq, Eq, Structural)]
pub struct QueueFamily {
    /// The identifier the adapter gives the family.
    pub id: usize,
    /// What its queues can do.
    pub queue_type: QueueType,
    /// How many queues it offers.
    pub max_queues: usize,
    /// Whether its queues can present to the surface.
    pub presents: bool,
}

impl QueueType {
    /// Queues of the general and of the graphics type take graphics commands.
    pub open spec fn draws(self) -> bool {
        self is General || self is Graphics
    }
}

/// Calls `gfx_hal::queue::QueueType::supports_graphics` on the gfx-hal
/// queue type of the same name. gfx-hal answers yes for `General` and
/// `Graphics` and no for `Compute` and `Transfer`.
#[verifier::external_body]
fn supports_graphics(queue_type: QueueType) -> (supported: bool)
    ensures
        supported == queue_type.draws(),
{
    let hal_type = match queue_type {
        QueueType::General => gfx_hal::queue::QueueType::General,
        QueueType::Graphics => gfx_hal::queue::QueueType::Graphics,
        QueueType::Compute => gfx_hal::queue::QueueType::Compute,
        QueueType::Transfer => gfx_hal::queue::QueueType::Transfer,
    };
    hal_type.supports_graphics()
}

impl QueueFamily {
    /// A family will do when it presents to the surface and takes graphics commands.
    pub open spec fn is_compatible(self) -> bool {
        self.presents && self.queue_type.draws()
    }

    /// Tells whether the family presents to the surface and takes graphics commands.
    pub fn compatible(&self) -> (compatible: bool)
        ensures
            compatible == self.is_compatible(),
    {
        self.presents && supports_graphics(self.queue_type)
    }
}

/// Chooses the adapter to render on among the `adapters` that the
/// instance enumerates: the first. Returns its position.
pub fn select_adapter(adapters: usize) -> (chosen: Result<usize, RenderError>)
    ensures
        adapters > 0 ==> chosen == Ok::<usize, RenderError>(0),
        adapters == 0 ==> chosen == Err::<usize, RenderError>(RenderError::NoCompatibleAdapter),
{
    if adapters > 0 {
        Ok(0)
    } else {
        Err(RenderError::NoCompatibleAdapter)
    }
}

/// Chooses the queue family to draw and present with: the first one in
/// the adapter's order that does both. Returns its position in `families`.
pub fn select_queue_family(families: &Vec<QueueFamily>) -> (chosen: Result<usize, RenderError>)
    ensures
        match chosen {
            Ok(position) => {
                &&& position < families.len()
                &&& families[position as int].is_compatible()
                &&& forall|i: int| 0 <= i < position ==> !(#[trigger] families[i]).is_compatible()
            },
            Err(error) => {
                &&& error == RenderError::NoCompatibleQueueFamily
                &&& forall|i: int| 0 <= i < families.len() ==> !(#[trigger] families[i]).is_compatible()
            },
        },
{
    let mut position: usize = 0;
    while position < families.len()
        invariant
            position <= families.len(),
            forall|i: int| 0 <= i < position ==> !(#[trigger] families[i]).is_compatible(),
        decreases families.len() - position,
    {
        if families[position].compatible() {
            return Ok(position);
        }
        position += 1;
    }
    Err(RenderError::NoCompatibleQueueFamily)
}

} // verus!
