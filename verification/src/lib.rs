//! A verified model of the per-frame GPU resource lifecycle of a small
//! Vulkan-style rendering backend: queue-family selection, swapchain
//! configuration and the acquire/present protocol, double-buffered frame
//! pacing, memory-type selection, staging transfers, and the framebuffer
//! cache.
//!
//! All graphics-API calls themselves are performed by an unverified driver
//! around this crate; the library holds the decisions, descriptors and state
//! machines, stated over plain values, and proves them.

use vstd::prelude::*;

pub mod buffer;
pub mod image;
pub mod logical_device;
pub mod physical_device;
pub mod shader;
pub mod swapchain;
pub mod vk;

verus! {

/// How the backend is to be brought up.
#[derive(Clone, Copy)]
pub struct RenderBackendConfig {
    pub swapchain_extent: [u32; 2],
    pub vsync: bool,
    pub graphics_debugging: bool,
    pub device_index: Option<usize>,
}

/// The assembled backend: the device session with its frame pacing, the
/// swapchain session, and the surface handle they both answer to.
pub struct RenderBackend {
    pub device: logical_device::Device,
    pub swapchain: swapchain::Swapchain,
    pub surface: u64,
}

impl RenderBackend {
    /// Assemble the backend from its two sessions.
    pub fn new(
        device: logical_device::Device,
        swapchain: swapchain::Swapchain,
        surface: u64,
    ) -> (r: RenderBackend)
        requires
            device.wf(),
            swapchain.wf(),
        ensures
            r.device == device,
            r.swapchain == swapchain,
            r.surface == surface,
            r.device.wf(),
            r.swapchain.wf(),
    {
        RenderBackend { device, swapchain, surface }
    }
}

} // verus!
