//! Verified decision logic of a small Vulkan renderer: device context
//! arguments, memory type selection, swapchain settings, frame acquisition
//! and SPIR-V decoding.

pub mod vk_context;
pub mod memory;
pub mod swapchain;
pub mod shader;
