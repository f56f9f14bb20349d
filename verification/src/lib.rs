//! Verified core of a real-time rendering front end.
//!
//! The library models the decision logic of a GPU presentation stack: memory
//! type selection, device and queue-family suitability, swapchain parameter
//! negotiation, buffer and image transfer planning, and the per-frame
//! fence/semaphore protocol. Every function here is pure computation over
//! plain values; the unverified shell that owns the actual GPU handles calls
//! into this crate for every decision and executes the plans it returns.

use vstd::prelude::*;

pub mod buffers;
pub mod gpu;
pub mod memory;
pub mod queue_families;
pub mod swapchain;
pub mod texture_mapping;
pub mod vertex_buffer;
pub mod vulkan_object;

verus! {

/// Number of frames that may have outstanding GPU work at once.
pub const MAX_FRAMES_IN_FLIGHT: usize = 2;

/// The error taxonomy of the core.
///
/// Setup errors (no suitable device, memory type or queue family, resource or
/// allocation failure) abort initialization. Runtime errors (acquire, submit,
/// present) are terminal: the frame loop must stop after one. The recoverable
/// "surface out of date" condition is never surfaced as an error; it is
/// handled by swapchain recreation.
#[derive(Clone, Copy, Debug, PartialEq, Eq, Structural)]
pub enum RenderError {
    NoSuitableMemoryType,
    NoSuitableDevice,
    NoSuitableQueueFamily,
    ResourceCreationFailed,
    AllocationFailed,
    InvalidPixelData,
    AcquireFailed,
    SubmitFailed,
    PresentFailed,
}

impl RenderError {
    /// A human-readable diagnostic for the error.
    pub fn message(&self) -> &'static str {
        match self {
            RenderError::NoSuitableMemoryType => "Failed to find a suitable memory type.",
            RenderError::NoSuitableDevice => "Failed to find suitable GPU.",
            RenderError::NoSuitableQueueFamily => "Missing required queue families.",
            RenderError::ResourceCreationFailed => "Failed to create a GPU resource.",
            RenderError::AllocationFailed => "Failed to allocate GPU memory.",
            RenderError::InvalidPixelData => "Pixel data does not match its stated dimensions.",
            RenderError::AcquireFailed => "Acquiring the next presentable image failed.",
            RenderError::SubmitFailed => "Submitting the command buffer failed.",
            RenderError::PresentFailed => "Presenting the image failed.",
        }
    }
}

} // verus!
