//! The decision core of a single-window GPU renderer.
//!
//! Everything that touches a device, a window or a compiler happens outside
//! this crate. What lives here is what those calls are for: which format and
//! queue family to pick, how a swapchain is configured, in which order a
//! frame proceeds and recovers, how a pipeline is built without leaking its
//! shader modules, and in which order the handles are released.

pub mod bootstrap;
pub mod commands;
pub mod description;
pub mod device;
pub mod error;
pub mod extent;
pub mod format;
pub mod frame;
pub mod pipeline;
pub mod resources;
pub mod shader;
pub mod swapchain;
pub mod trace;
