//! The device capability that the fence tracker consumes.
//!
//! The tracker itself never talks to a graphics driver: every native
//! operation goes through the [`Device`] trait, a small port that the
//! embedding supplies (backed by a real driver in production, by a stub in
//! tests). Nothing is promised about a device's answers — whether a fence
//! is signaled is decided by hardware — so the trait's methods carry no
//! contracts, and every method of the tracker states what holds of its own
//! state for each possible answer.

use vstd::prelude::*;

verus! {

/// A memory allocation failed in the driver or on the device.
#[derive(Clone, Copy, Debug, PartialEq, Eq, Structural)]
pub enum OutOfMemory {
    /// Host memory exhausted.
    Host,
    /// Device memory exhausted.
    Device,
}

/// The device was lost; its objects, fences included, are gone with it.
#[derive(Clone, Copy, Debug, PartialEq, Eq, Structural)]
pub struct DeviceLost;

/// Either failure a blocking wait on a fence can report.
#[derive(Clone, Copy, Debug, PartialEq, Eq, Structural)]
pub enum OomOrDeviceLost {
    /// Out of host or device memory.
    OutOfMemory(OutOfMemory),
    /// The device was lost.
    DeviceLost(DeviceLost),
}

/// Native fence operations of a graphics device, over handles of type `F`.
///
/// Each method maps onto one driver entry point. The results are
/// environmental: a driver may run out of memory, lose the device, or
/// report a fence signaled at any time, so no method has an `ensures` —
/// callers in this crate are verified against every possible answer.
pub trait Device<F> {
    /// Create a native fence, signaled or unsignaled as requested.
    fn create_fence(&self, signaled: bool) -> Result<F, OutOfMemory>;

    /// Return the native fence to its unsignaled state.
    fn reset_fence(&self, raw: &F) -> Result<(), OutOfMemory>;

    /// Block until the fence is signaled or `timeout_ns` nanoseconds have
    /// passed; `Ok(true)` means it was signaled within the timeout.
    fn wait_for_fence(&self, raw: &F, timeout_ns: u64) -> Result<bool, OomOrDeviceLost>;

    /// Poll the fence without blocking; `Ok(true)` means it is signaled.
    fn get_fence_status(&self, raw: &F) -> Result<bool, DeviceLost>;
}

} // verus!
