//! Identity of a submission queue, as the submission layer hands it out.

use vstd::prelude::*;

verus! {

/// Identifier of one queue of one queue family on a device.
///
/// The tracker never interprets it; it only travels inside a
/// [`FenceEpoch`](crate::FenceEpoch) so that a signal can be attributed to
/// the queue whose submission carries the fence.
#[derive(Clone, Copy, Debug, PartialEq, Eq, Structural, Hash)]
pub struct QueueId {
    /// Index of the queue family.
    pub family: usize,

    /// Index of the queue within its family.
    pub index: usize,
}

} // verus!
