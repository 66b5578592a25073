use vstd::prelude::*;

verus! {

/// Everything that can go wrong between start-up and shutdown.
#[derive(Clone, Debug, PartialEq, Eq)]
pub enum RenderError {
    /// The instance enumerates no adapter.
    NoCompatibleAdapter,
    /// No queue family of the adapter both draws and presents to the surface.
    NoCompatibleQueueFamily,
    /// The logical device could not be opened.
    DeviceCreationFailed,
    /// A pool, pass, layout, pipeline, framebuffer or sync object could not be allocated.
    OutOfMemory,
    /// The shader compiler rejected a source; the payload is its diagnostic.
    ShaderCompileFailed(String),
    /// The device refused to link the graphics pipeline.
    PipelineCreateFailed,
    /// The surface cannot be given a swapchain.
    SwapchainConfigureFailed,
    /// The swapchain no longer matches the surface.
    SurfaceLost,
    /// The device stopped answering: a fence wait ran out or the device reported its loss.
    DeviceLost,
}

impl RenderError {
    /// Start-up errors end the program; errors of a single frame are recovered at the next tick.
    pub open spec fn is_fatal(self) -> bool {
        !(self is SwapchainConfigureFailed || self is SurfaceLost)
    }

    /// The words that describe the error to the user.
    pub open spec fn description(self) -> Seq<char> {
        match self {
            RenderError::NoCompatibleAdapter => "No compatible adapter found"@,
            RenderError::NoCompatibleQueueFamily => "No compatible queue family found"@,
            RenderError::DeviceCreationFailed => "Failed to open device"@,
            RenderError::OutOfMemory => "Out of memory"@,
            RenderError::ShaderCompileFailed(diagnostic) => "Failed to compile shader: "@ + diagnostic@,
            RenderError::PipelineCreateFailed => "Failed to create graphics pipeline"@,
            RenderError::SwapchainConfigureFailed => "Failed to configure swapchain"@,
            RenderError::SurfaceLost => "Surface lost or out of date"@,
            RenderError::DeviceLost => "Failed to wait for fence"@,
        }
    }

    /// Describes the error to the user; a shader that did not compile
    /// brings the diagnostic of the compiler along.
    pub fn message(&self) -> (text: String)
        ensures
            text@ == self.description(),
    {
        match self {
            RenderError::NoCompatibleAdapter => String::from_str("No compatible adapter found"),
            RenderError::NoCompatibleQueueFamily => String::from_str("No compatible queue family found"),
            RenderError::DeviceCreationFailed => String::from_str("Failed to open device"),
            RenderError::OutOfMemory => String::from_str("Out of memory"),
            RenderError::ShaderCompileFailed(diagnostic) => String::from_str(
                "Failed to compile shader: ",
            ).concat(diagnostic.as_str()),
            RenderError::PipelineCreateFailed => String::from_str("Failed to create graphics pipeline"),
            RenderError::SwapchainConfigureFailed => String::from_str("Failed to configure swapchain"),
            RenderError::SurfaceLost => String::from_str("Surface lost or out of date"),
            RenderError::DeviceLost => String::from_str("Failed to wait for fence"),
        }
    }

    /// Reports whether the program has to stop on this error.
    pub fn fatal(&self) -> (fatal: bool)
        ensures
            fatal == self.is_fatal(),
    {
        match self {
            RenderError::SwapchainConfigureFailed => false,
            RenderError::SurfaceLost => false,
            _ => true,
        }
    }
}

} // verus!
