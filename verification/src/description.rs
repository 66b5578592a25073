use crate::format::ColorFormat;
use vstd::prelude::*;

verus! {

/// What happens to an attachment when the render pass begins.
#[derive(Clone, Copy, Debug, PartialEq, Eq, Structural)]
pub enum LoadOp {
    /// Its contents are kept.
    Load,
    /// It is cleared.
    Clear,
    /// Its contents do not matter.
    DontCare,
}

/// What happens to an attachment when the render pass ends.
#[derive(Clone, Copy, Debug, PartialEq, Eq, Structural)]
pub enum StoreOp {
    /// Its contents are written back.
    Store,
    /// Its contents do not matter.
    DontCare,
}

/// The layouts an image of the swapchain passes through.
#[derive(Clone, Copy, Debug, PartialEq, Eq, Structural)]
pub enum ImageLayout {
    /// Whatever the image held is of no interest.
    Undefined,
    /// The image is drawn to.
    ColorAttachmentOptimal,
    /// The image is ready to be presented.
    Present,
}

/// How the pixels of a primitive are filled in.
#[derive(Clone, Copy, Debug, PartialEq, Eq, Structural)]
pub enum PolygonMode {
    Point,
    Line,
    Fill,
}

/// How vertices are put together.
#[derive(Clone, Copy, Debug, PartialEq, Eq, Structural)]
pub enum Primitive {
    PointList,
    LineList,
    LineStrip,
    TriangleList,
    TriangleStrip,
}

/// How a fragment is combined with what the target holds.
#[derive(Clone, Copy, Debug, PartialEq, Eq, Structural)]
pub enum Blend {
    /// The fragment replaces it.
    Replace,
    /// Straight alpha: the fragment weighted by its alpha over the target weighted by the rest.
    Alpha,
}

/// Every color channel may be written.
pub const COLOR_MASK_ALL: u8 = 0x0F;

/// The render pass: one color attachment and one subpass that writes to it.
#[derive(Clone, Copy, Debug, PartialEq, Eq, Structural)]
pub struct RenderPassDescription {
    /// Format of the one attachment.
    pub format: ColorFormat,
    /// Samples per pixel.
    pub samples: u8,
    /// What happens to the colors at the beginning.
    pub load: LoadOp,
    /// What happens to the colors at the end.
    pub store: StoreOp,
    /// What happens to the stencil at the beginning.
    pub stencil_load: LoadOp,
    /// What happens to the stencil at the end.
    pub stencil_store: StoreOp,
    /// The layout the attachment comes in.
    pub initial_layout: ImageLayout,
    /// The layout the attachment is left in.
    pub final_layout: ImageLayout,
    /// The attachment the subpass writes its colors to.
    pub color_attachment: usize,
    /// The layout of that attachment during the subpass.
    pub color_layout: ImageLayout,
    /// Whether the subpass has a depth and stencil attachment.
    pub depth_stencil: bool,
    /// Number of input attachments of the subpass.
    pub inputs: usize,
    /// Number of resolve attachments of the subpass.
    pub resolves: usize,
    /// Number of attachments the subpass preserves.
    pub preserves: usize,
    /// Number of dependencies between subpasses.
    pub dependencies: usize,
}

/// The graphics pipeline and its layout.
#[derive(Clone, Copy, Debug, PartialEq, Eq, Structural)]
pub struct PipelineDescription {
    /// Descriptor set layouts of the pipeline layout.
    pub descriptor_sets: usize,
    /// Push constant ranges of the pipeline layout.
    pub push_constants: usize,
    /// How vertices are put together.
    pub primitive: Primitive,
    /// Whether primitives come with their neighbours.
    pub with_adjacency: bool,
    /// Whether an index restarts the primitive.
    pub primitive_restart: bool,
    /// Number of vertex buffers.
    pub vertex_buffers: usize,
    /// Number of vertex attributes.
    pub vertex_attributes: usize,
    /// Whether there are tessellation stages.
    pub tessellation: bool,
    /// Whether there is a geometry stage.
    pub geometry: bool,
    /// How primitives are filled in.
    pub polygon_mode: PolygonMode,
    /// Number of color targets that are blended.
    pub blend_targets: usize,
    /// How each of them is blended.
    pub blend: Blend,
    /// Which channels of each may be written, as bits.
    pub color_mask: u8,
    /// The subpass of the render pass that the pipeline runs in.
    pub subpass: u8,
}

impl RenderPassDescription {
    /// The render pass of the renderer, for images of `format`: cleared at
    /// the beginning and stored at the end, taken in any layout and left
    /// ready to present; no depth, no stencil, no inputs.
    pub open spec fn of(format: ColorFormat) -> RenderPassDescription {
        RenderPassDescription {
            format,
            samples: 1,
            load: LoadOp::Clear,
            store: StoreOp::Store,
            stencil_load: LoadOp::DontCare,
            stencil_store: StoreOp::DontCare,
            initial_layout: ImageLayout::Undefined,
            final_layout: ImageLayout::Present,
            color_attachment: 0,
            color_layout: ImageLayout::ColorAttachmentOptimal,
            depth_stencil: false,
            inputs: 0,
            resolves: 0,
            preserves: 0,
            dependencies: 0,
        }
    }

    /// Describes the render pass of the renderer for images of `format`.
    pub fn new(format: ColorFormat) -> (description: RenderPassDescription)
        ensures
            description == RenderPassDescription::of(format),
    {
        RenderPassDescription {
            format,
            samples: 1,
            load: LoadOp::Clear,
            store: StoreOp::Store,
            stencil_load: LoadOp::DontCare,
            stencil_store: StoreOp::DontCare,
            initial_layout: ImageLayout::Undefined,
            final_layout: ImageLayout::Present,
            color_attachment: 0,
            color_layout: ImageLayout::ColorAttachmentOptimal,
            depth_stencil: false,
            inputs: 0,
            resolves: 0,
            preserves: 0,
            dependencies: 0,
        }
    }
}

impl PipelineDescription {
    /// The pipeline of the renderer: an empty layout, triangle lists, no
    /// vertex input at all, filled polygons, one target blended by straight
    /// alpha with every channel written, in the first subpass.
    pub open spec fn fixed() -> PipelineDescription {
        PipelineDescription {
            descriptor_sets: 0,
            push_constants: 0,
            primitive: Primitive::TriangleList,
            with_adjacency: false,
            primitive_restart: false,
            vertex_buffers: 0,
            vertex_attributes: 0,
            tessellation: false,
            geometry: false,
            polygon_mode: PolygonMode::Fill,
            blend_targets: 1,
            blend: Blend::Alpha,
            color_mask: COLOR_MASK_ALL,
            subpass: 0,
        }
    }

    /// Describes the pipeline of the renderer.
    pub fn new() -> (description: PipelineDescription)
        ensures
            description == PipelineDescription::fixed(),
    {
        PipelineDescription {
            descriptor_sets: 0,
            push_constants: 0,
            primitive: Primitive::TriangleList,
            with_adjacency: false,
            primitive_restart: false,
            vertex_buffers: 0,
            vertex_attributes: 0,
            tessellation: false,
            geometry: false,
            polygon_mode: PolygonMode::Fill,
            blend_targets: 1,
            blend: Blend::Alpha,
            color_mask: COLOR_MASK_ALL,
            subpass: 0,
        }
    }
}

} // verus!
