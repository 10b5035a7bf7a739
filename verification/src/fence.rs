//! The fence tracker: one native handle and the state it is believed in.

use vstd::prelude::*;

use crate::device::{Device, DeviceLost, OomOrDeviceLost, OutOfMemory};
use crate::family::QueueId;

verus! {

/// A point on one queue's timeline: the moment a submission batch was
/// handed to the device.
#[derive(Clone, Copy, Debug, PartialEq, Eq, Structural, Hash)]
pub struct FenceEpoch {
    /// Queue that will signal the fence.
    pub queue: QueueId,

    /// That queue's submission counter at the time of the submission.
    pub epoch: u64,
}

/// The lifecycle position a fence is believed to be in.
///
/// Every transition is driven or confirmed by the caller; the tracker
/// never re-derives this from the device on its own.
#[derive(Clone, Copy, Debug, PartialEq, Eq, Structural)]
pub enum FenceState {
    /// Created or reset; not attached to any submission yet.
    Unsignaled,
    /// Completion confirmed; ready to be reset for reuse.
    Signaled,
    /// Attached to the submission at the given epoch; a signal is pending.
    Submitted(FenceEpoch),
}

/// A native fence handle together with its tracked [`FenceState`].
///
/// The tracker owns the handle for its whole lifetime and releases it only
/// through [`Fence::into_inner`], which refuses to give up a handle whose
/// signal is still pending — in-flight device work may yet write through
/// it.
#[derive(Debug)]
pub struct Fence<F> {
    raw: F,
    state: FenceState,
}

impl<F> View for Fence<F> {
    type V = FenceState;

    /// A fence abstracts to the state it is tracked in.
    closed spec fn view(&self) -> FenceState {
        self.state
    }
}

impl<F> Fence<F> {
    /// The native handle the tracker owns.
    pub closed spec fn raw_spec(&self) -> F {
        self.raw
    }

    /// Wrap a native handle that the caller obtained elsewhere, trusting
    /// the caller's word on whether it is currently signaled.
    pub fn from_raw(raw: F, signaled: bool) -> (fence: Fence<F>)
        ensures
            fence@ == (if signaled {
                FenceState::Signaled
            } else {
                FenceState::Unsignaled
            }),
            fence.raw_spec() == raw,
    {
        Fence {
            raw,
            state: if signaled {
                FenceState::Signaled
            } else {
                FenceState::Unsignaled
            },
        }
    }

    /// Create a new fence through the device, tracked as signaled or
    /// unsignaled by the caller's choice.
    pub fn new<D: Device<F>>(device: &D, signaled: bool) -> (r: Result<Fence<F>, OutOfMemory>)
        ensures
            r matches Ok(fence) ==> fence@ == (if signaled {
                FenceState::Signaled
            } else {
                FenceState::Unsignaled
            }),
    {
        let raw = match device.create_fence(false) {
            Ok(raw) => raw,
            Err(e) => {
                return Err(e);
            },
        };
        Ok(Fence::from_raw(raw, signaled))
    }

    /// Check if the fence was submitted and its signal is still pending.
    pub fn is_submitted(&self) -> (r: bool)
        ensures
            r == (self@ is Submitted),
    {
        match self.state {
            FenceState::Submitted(_) => true,
            _ => false,
        }
    }

    /// Check if the fence's completion has been confirmed.
    pub fn is_signaled(&self) -> (r: bool)
        ensures
            r == (self@ is Signaled),
    {
        match self.state {
            FenceState::Signaled => true,
            _ => false,
        }
    }

    /// Check if the fence has not been confirmed signaled; a submitted
    /// fence counts as unsignaled too, since its signal is still pending.
    pub fn is_unsignaled(&self) -> (r: bool)
        ensures
            r == (self@ is Unsignaled || self@ is Submitted),
    {
        !self.is_signaled()
    }

    /// The epoch whose submission the fence is attached to.
    ///
    /// Meaningful only while a signal is pending; the caller must not ask
    /// otherwise.
    pub fn epoch(&self) -> (epoch: FenceEpoch)
        requires
            self@ is Submitted,
        ensures
            self@ == FenceState::Submitted(epoch),
    {
        match self.state {
            FenceState::Submitted(epoch) => epoch,
            _ => vstd::pervasive::unreached(),
        }
    }

    /// Attach the fence to the submission at `epoch`.
    ///
    /// Only an unattached, unsignaled fence may be submitted: calling this
    /// in any other state is a defect in the caller's submission logic,
    /// and the contract rules it out.
    pub fn mark_submitted(&mut self, epoch: FenceEpoch)
        requires
            old(self)@ is Unsignaled,
        ensures
            final(self)@ == FenceState::Submitted(epoch),
            final(self).raw_spec() == old(self).raw_spec(),
    {
        self.state = FenceState::Submitted(epoch);
    }

    /// Record that the caller has already reset the native fence through
    /// another path (for instance a batched reset over many handles).
    ///
    /// The caller vouches that the native object really is unsignaled
    /// again; the tracker only resynchronizes its belief. Allowed only
    /// from the signaled state.
    pub fn mark_reset(&mut self)
        requires
            old(self)@ is Signaled,
        ensures
            final(self)@ == FenceState::Unsignaled,
            final(self).raw_spec() == old(self).raw_spec(),
    {
        self.state = FenceState::Unsignaled;
    }

    /// Record that the caller has observed the native fence signaled
    /// through the raw handle, and hand back the epoch that was pending.
    ///
    /// The caller vouches for the observation. Allowed only while a
    /// signal is pending.
    pub fn mark_signaled(&mut self) -> (epoch: FenceEpoch)
        requires
            old(self)@ is Submitted,
        ensures
            old(self)@ == FenceState::Submitted(epoch),
            final(self)@ == FenceState::Signaled,
            final(self).raw_spec() == old(self).raw_spec(),
    {
        let epoch = self.epoch();
        self.state = FenceState::Signaled;
        epoch
    }

    /// Reset a signaled fence through the device, so it can carry another
    /// submission.
    ///
    /// On success the fence is unsignaled again; if the device reports an
    /// allocation failure the tracked state is left as it was.
    pub fn reset<D: Device<F>>(&mut self, device: &D) -> (r: Result<(), OutOfMemory>)
        requires
            old(self)@ is Signaled,
        ensures
            final(self).raw_spec() == old(self).raw_spec(),
            r is Ok ==> final(self)@ == FenceState::Unsignaled,
            r is Err ==> final(self)@ == old(self)@,
    {
        match device.reset_fence(&self.raw) {
            Ok(()) => {
                self.mark_reset();
                Ok(())
            },
            Err(e) => Err(e),
        }
    }

    /// Block until the device signals the fence or `timeout_ns`
    /// nanoseconds have passed.
    ///
    /// Allowed only while a signal is pending. If the device confirms the
    /// signal within the timeout, the pending epoch is returned and the
    /// fence becomes signaled; on a timeout, or if the device fails, the
    /// tracked state is left exactly as it was, and the call may simply be
    /// repeated.
    pub fn wait_signaled<D: Device<F>>(&mut self, device: &D, timeout_ns: u64) -> (r: Result<
        Option<FenceEpoch>,
        OomOrDeviceLost,
    >)
        requires
            old(self)@ is Submitted,
        ensures
            final(self).raw_spec() == old(self).raw_spec(),
            r matches Ok(Some(epoch)) ==> old(self)@ == FenceState::Submitted(epoch)
                && final(self)@ == FenceState::Signaled,
            r matches Ok(None) ==> final(self)@ == old(self)@,
            r is Err ==> final(self)@ == old(self)@,
    {
        match device.wait_for_fence(&self.raw, timeout_ns) {
            Ok(true) => Ok(Some(self.mark_signaled())),
            Ok(false) => Ok(None),
            Err(e) => Err(e),
        }
    }

    /// Poll the device for the fence's status without blocking.
    ///
    /// Allowed only while a signal is pending. If the device reports the
    /// fence signaled, the pending epoch is returned and the fence becomes
    /// signaled; while it is still pending, or if the device fails, the
    /// tracked state is left exactly as it was.
    pub fn check_signaled<D: Device<F>>(&mut self, device: &D) -> (r: Result<
        Option<FenceEpoch>,
        DeviceLost,
    >)
        requires
            old(self)@ is Submitted,
        ensures
            final(self).raw_spec() == old(self).raw_spec(),
            r matches Ok(Some(epoch)) ==> old(self)@ == FenceState::Submitted(epoch)
                && final(self)@ == FenceState::Signaled,
            r matches Ok(None) ==> final(self)@ == old(self)@,
            r is Err ==> final(self)@ == old(self)@,
    {
        match device.get_fence_status(&self.raw) {
            Ok(true) => Ok(Some(self.mark_signaled())),
            Ok(false) => Ok(None),
            Err(e) => Err(e),
        }
    }

    /// Read-only access to the native handle.
    ///
    /// A caller that changes the native object's state through this
    /// handle must resynchronize the tracker with a `mark_*` call.
    pub fn raw(&self) -> (r: &F)
        ensures
            *r == self.raw_spec(),
    {
        &self.raw
    }

    /// Release ownership of the native handle.
    ///
    /// Allowed only while no signal is pending: giving up a submitted
    /// fence's handle could let it be destroyed while in-flight device
    /// work may still write through it.
    pub fn into_inner(self) -> (raw: F)
        requires
            self@ is Signaled || self@ is Unsignaled,
        ensures
            raw == self.raw_spec(),
    {
        self.raw
    }
}

/// The three observations partition a fence's states: exactly one of
/// `Signaled`, `Submitted(_)` and `Unsignaled` holds at any instant. In
/// particular [`Fence::is_signaled`] and [`Fence::is_submitted`] are
/// mutually exclusive, and "unsignaled and not submitted" is the one
/// remaining possibility.
pub proof fn lemma_state_partition(s: FenceState)
    ensures
        !(s is Signaled && s is Submitted),
        !(s is Signaled && s is Unsignaled),
        !(s is Submitted && s is Unsignaled),
        s is Signaled || s is Submitted || s is Unsignaled,
{
}

/// A fence observes as unsignaled exactly when its state is `Unsignaled`
/// or `Submitted(_)` — never when it is `Signaled`: what
/// [`Fence::is_unsignaled`] returns is the negation of what
/// [`Fence::is_signaled`] returns.
pub proof fn lemma_unsignaled_iff_not_signaled(s: FenceState)
    ensures
        (s is Unsignaled || s is Submitted) <==> !(s is Signaled),
{
}

/// The epoch a fence carries while submitted is exactly the one it was
/// submitted with: [`Fence::mark_submitted`] with epoch `e` leaves the
/// state `Submitted(e)`, and every observation whose contract pins its
/// result through that state — [`Fence::epoch`], [`Fence::mark_signaled`],
/// [`Fence::wait_signaled`], [`Fence::check_signaled`] — hands back `e`
/// itself, unchanged. In particular the round trip `mark_submitted(e)`
/// then `mark_signaled()` returns `e` and leaves the fence `Signaled`.
pub proof fn lemma_pending_epoch_identity(submitted: FenceState, e: FenceEpoch, r: FenceEpoch)
    requires
        submitted == FenceState::Submitted(e),
        submitted == FenceState::Submitted(r),
    ensures
        r == e,
{
}

} // verus!
