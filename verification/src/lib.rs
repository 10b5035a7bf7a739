//! Software-side lifecycle tracking for GPU fences.
//!
//! A fence is a one-shot completion flag that a device signals once
//! previously submitted work has finished. The native handle itself is
//! opaque; what this crate verifies is the bookkeeping around it: a fence
//! is never waited on before it was submitted, never reset while a signal
//! is still pending, and never unwrapped while work that may signal it is
//! in flight.

mod device;
mod family;
mod fence;

pub use device::{Device, DeviceLost, OomOrDeviceLost, OutOfMemory};
pub use family::QueueId;
pub use fence::{Fence, FenceEpoch, FenceState};
