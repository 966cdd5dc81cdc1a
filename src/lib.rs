//! Decision logic of a small real-time Vulkan rendering backend, with the
//! contracts that the surrounding program relies on, plus a toy bytecode
//! chunk used by the scripting prototype.
pub mod chunk;
pub mod context;
pub mod error;
pub mod frame_sync;
pub mod icon;
pub mod lifecycle;
pub mod physical_device;
pub mod pipeline;
pub mod queue_family;
pub mod swapchain;
