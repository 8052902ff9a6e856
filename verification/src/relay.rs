//! The relay task of push mode: it drains the outbound queue, wraps each
//! message as a handle, and forwards the handle to the host notification
//! channel. When the host reports that it can no longer accept
//! notifications the relay stops permanently: a torn-down host never accepts
//! frames again, and retrying would only leak handles.

use vstd::prelude::*;

use crate::msg::FromMsg;
use crate::queue::copy_bytes;
use crate::registry::FrameRegistry;
use crate::registry::convert_from_msg;

verus! {

broadcast use vstd::seq_lib::lemma_seq_contains_after_push;

/// The relay's supervision state: how many notifications the host has
/// accepted, and whether the host has torn down the channel.
pub struct RelayState {
    pub delivered: u64,
    pub stopped: bool,
}

impl RelayState {
    /// A freshly spawned relay: nothing delivered, still running.
    pub fn new() -> (r: RelayState)
        ensures
            r.delivered == 0,
            !r.stopped,
    {
        RelayState { delivered: 0, stopped: false }
    }
}

/// Accounts for the host's answer to one posted notification. On success
/// the handle stays live, owned by the host from here on. On failure the
/// relay releases the handle it had just issued — the host never saw it, so
/// keeping it live would leak it — and stops permanently; no transition
/// leads out of the stopped state.
pub fn relay_note_post(
    state: &mut RelayState,
    registry: &mut FrameRegistry,
    handle: u64,
    ok: bool,
)
    requires
        !old(state).stopped,
        old(state).delivered < u64::MAX,
        old(registry).wf(),
    ensures
        final(registry).wf(),
        final(registry).issued_count() == old(registry).issued_count(),
        ok ==> (final(state).delivered == old(state).delivered + 1 && !final(state).stopped
            && final(registry)@ == old(registry)@),
        !ok ==> (final(state).delivered == old(state).delivered && final(state).stopped
            && final(registry)@ == old(registry)@.remove(handle)),
{
    if ok {
        state.delivered = state.delivered + 1;
    } else {
        state.stopped = true;
        let _ = registry.release(handle);
    }
}

/// One relay run against a host notification channel that accepts the first
/// `accept_limit` notifications and then reports failure: the relay delivers
/// exactly the first `min(accept_limit, msgs.len())` messages, as handles,
/// in emission order, then stops permanently; the failed notification's
/// handle is released, so no handle beyond the delivered ones stays live.
pub fn run_relay(msgs: &Vec<FromMsg>, accept_limit: usize, registry: &mut FrameRegistry) -> (r: (
    RelayState,
    Vec<u64>,
))
    requires
        old(registry).wf(),
        old(registry).issued_count() + msgs@.len() < u64::MAX - 1,
    ensures
        final(registry).wf(),
        r.1@.len() == if msgs@.len() <= accept_limit {
            msgs@.len() as int
        } else {
            accept_limit as int
        },
        r.0.delivered == r.1@.len(),
        r.0.stopped <==> accept_limit < msgs@.len(),
        forall|j: int|
            0 <= j < r.1@.len() ==> final(registry)@.contains_key(#[trigger] r.1@[j])
                && final(registry)@[r.1@[j]]@ == msgs@[j].payload@,
        forall|j: int, l: int| 0 <= j < l < r.1@.len() ==> r.1@[j] != r.1@[l],
        forall|h: u64|
            final(registry)@.contains_key(h) <==> (old(registry)@.contains_key(h) || r.1@.contains(
                h,
            )),
        forall|h: u64| #[trigger]
            old(registry)@.contains_key(h) ==> final(registry)@[h] == old(registry)@[h],
{
    let ghost base = old(registry)@;
    let ghost base_count = old(registry).issued_count();
    let mut state = RelayState::new();
    let mut handles: Vec<u64> = Vec::new();
    let n = msgs.len();
    let mut i: usize = 0;
    while i < n && !state.stopped
        invariant
            n == msgs@.len(),
            i <= n,
            registry.wf(),
            registry.issued_count() <= base_count + i,
            base_count + n < u64::MAX - 1,
            state.delivered == handles@.len(),
            !state.stopped ==> i == handles@.len() && handles@.len() <= accept_limit,
            state.stopped ==> (i == handles@.len() + 1 && handles@.len() == accept_limit
                && accept_limit < n),
            forall|j: int|
                0 <= j < handles@.len() ==> registry@.contains_key(#[trigger] handles@[j])
                    && registry@[handles@[j]]@ == msgs@[j].payload@,
            forall|j: int, l: int| 0 <= j < l < handles@.len() ==> handles@[j] != handles@[l],
            forall|h: u64|
                registry@.contains_key(h) <==> (base.contains_key(h) || handles@.contains(h)),
            forall|h: u64| #[trigger] base.contains_key(h) ==> registry@[h] == base[h],
        decreases n - i,
    {
        let ghost reg0 = registry@;
        let ghost handles0 = handles@;
        let payload = copy_bytes(&msgs[i].payload);
        let h = convert_from_msg(registry, FromMsg { payload });
        let ok = state.delivered < accept_limit as u64;
        if ok {
            relay_note_post(&mut state, registry, h, true);
            handles.push(h);
            proof {
                assert forall|hh: u64|
                    registry@.contains_key(hh) <==> (base.contains_key(hh) || handles@.contains(
                        hh,
                    )) by {
                    vstd::seq_lib::lemma_seq_contains_after_push(handles0, h, hh);
                }
            }
        } else {
            relay_note_post(&mut state, registry, h, false);
            proof {
                assert(!reg0.contains_key(h));
                assert(registry@ =~= reg0);
            }
        }
        i = i + 1;
    }
    (state, handles)
}

} // verus!
