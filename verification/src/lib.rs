//! A verified model of a GPU presentation engine: picking a device that can
//! draw and present, negotiating a swapchain with the surface, keeping the
//! pipeline and framebuffers consistent with the swapchain, moving data
//! through the staging path, and scheduling frames so that the CPU never
//! reuses a resource the GPU is still working on.
//!
//! The library works on plain values (queue-family capabilities, surface
//! capabilities, byte payloads, fence states). A thin unverified shell is
//! expected to perform the actual driver calls and feed their outcomes back
//! into these functions.

pub mod commands;
pub mod device;
pub mod memory;
pub mod pipeline;
pub mod renderer;
pub mod scheduler;
pub mod swapchain;

use vstd::prelude::*;

verus! {

/// An initialization failure that the design treats as unrecoverable: the
/// environment cannot run the program, so the caller aborts with a diagnostic.
#[derive(Clone, Copy, Debug, PartialEq, Eq, Structural)]
pub enum InitError {
    /// No enumerated physical device can both draw and present to the surface.
    NoSuitableDevice,
    /// No memory type satisfies the requested property flags.
    NoSuitableMemoryType,
}

} // verus!
