//! The handle registry: converts ownership of a heap frame into an opaque
//! integer handle for the host, and back.
//!
//! A handle is valid from the moment it is issued until the moment it is
//! released; zero is reserved and never issued. While a handle is live it is
//! never reissued for a different frame. Resolving or releasing a handle
//! that is not live is a contract violation by the caller: both operations
//! report it explicitly (`None`) and never hand back a frame, so the
//! boundary layer can abort instead of continuing on confused state.

use std::collections::HashMap;
use vstd::prelude::*;

use crate::msg::FromMsg;
use crate::msg::RecvMessage;
use crate::msg::encode_from_msg;

verus! {

broadcast use vstd::std_specs::hash::group_hash_axioms;

/// Owns every frame the host currently holds a handle for. The view is the
/// map from live handles to their frames.
pub struct FrameRegistry {
    next: u64,
    frames: HashMap<u64, RecvMessage>,
}

impl FrameRegistry {
    /// The live handles and the frames they stand for.
    pub closed spec fn view(&self) -> Map<u64, RecvMessage> {
        self.frames@
    }

    /// How many handles were ever issued; handles are not reused, so the
    /// registry can issue at most `u64::MAX - 1` of them over its life.
    pub closed spec fn issued_count(&self) -> nat {
        (self.next - 1) as nat
    }

    /// Internal consistency: zero is never live, and every live handle lies
    /// below the issue counter, so a fresh handle never collides with a live
    /// one.
    pub closed spec fn wf(&self) -> bool {
        &&& 1 <= self.next
        &&& forall|h: u64| #[trigger] self.frames@.contains_key(h) ==> 1 <= h < self.next
    }

    /// Creates a registry with no live handles.
    pub fn new() -> (r: FrameRegistry)
        ensures
            r.wf(),
            r@ == Map::<u64, RecvMessage>::empty(),
            r.issued_count() == 0,
    {
        FrameRegistry { next: 1, frames: HashMap::new() }
    }

    /// Takes ownership of `frame` and returns the handle that now stands for
    /// it: nonzero, fresh, and live until released. Only the caller may free
    /// it from here on.
    pub fn issue(&mut self, frame: RecvMessage) -> (r: u64)
        requires
            old(self).wf(),
            old(self).issued_count() < u64::MAX - 1,
        ensures
            final(self).wf(),
            r != 0,
            !old(self)@.contains_key(r),
            final(self)@ == old(self)@.insert(r, frame),
            final(self).issued_count() == old(self).issued_count() + 1,
    {
        let h = self.next;
        self.frames.insert(h, frame);
        self.next = self.next + 1;
        h
    }

    /// How many handles are live right now.
    pub fn live_count(&self) -> (r: usize)
        ensures
            r == self@.len(),
    {
        self.frames.len()
    }

    /// Borrows the frame a live handle stands for, for the duration of the
    /// current call. A zero or released handle resolves to `None`: the
    /// violation is reported, never silently absorbed.
    pub fn resolve(&self, h: u64) -> (r: Option<&RecvMessage>)
        ensures
            r matches Some(f) ==> self@.contains_key(h) && *f == self@[h],
            r is None <==> !self@.contains_key(h),
    {
        self.frames.get(&h)
    }

    /// Takes back ownership of the frame behind a live handle and ends the
    /// handle's life; the frame is destroyed when the caller drops it. A
    /// zero or already-released handle yields `None`.
    pub fn release(&mut self, h: u64) -> (r: Option<RecvMessage>)
        requires
            old(self).wf(),
        ensures
            final(self).wf(),
            r matches Some(f) ==> old(self)@.contains_key(h) && f == old(self)@[h],
            r is None <==> !old(self)@.contains_key(h),
            final(self)@ == old(self)@.remove(h),
            final(self).issued_count() == old(self).issued_count(),
    {
        let r = self.frames.remove(&h);
        proof {
            assert(self.frames@ =~= old(self)@.remove(h));
        }
        r
    }
}

/// Encodes a worker message into a frame and hands its ownership to the
/// caller as a fresh handle, the push- and pull-mode delivery step.
pub fn convert_from_msg(registry: &mut FrameRegistry, msg: FromMsg) -> (r: u64)
    requires
        old(registry).wf(),
        old(registry).issued_count() < u64::MAX - 1,
    ensures
        final(registry).wf(),
        r != 0,
        !old(registry)@.contains_key(r),
        final(registry)@ == old(registry)@.insert(r, (RecvMessage(msg.payload))),
        final(registry)@[r]@ == msg.payload@,
        final(registry).issued_count() == old(registry).issued_count() + 1,
{
    let frame = encode_from_msg(msg);
    registry.issue(frame)
}

/// A handle resolves, immediately after it was issued, to the very frame
/// that was issued.
pub proof fn lemma_resolve_after_issue(m: Map<u64, RecvMessage>, h: u64, f: RecvMessage)
    ensures
        m.insert(h, f).contains_key(h),
        m.insert(h, f)[h] == f,
{
}

/// A handle never resolves after it was released: release removes it from
/// the live map, so a later resolve reports the violation instead of handing
/// back a frame.
pub proof fn lemma_resolve_after_release(m: Map<u64, RecvMessage>, h: u64)
    ensures
        !m.remove(h).contains_key(h),
{
}

} // verus!
