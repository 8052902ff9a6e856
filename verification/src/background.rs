//! The background request gateway: an out-of-band entry point invoked with
//! no caller-held session handle (an operating-system wake event).
//!
//! It enqueues a tagged inbound message carrying a single-use reply path and
//! blocks the invoking thread for at most a fixed ceiling. A slow worker
//! must never bring the bridge down: on timeout the gateway reports the
//! condition and returns. The reply path is entirely separate from the main
//! outbound channel, so background wake-ups never disturb the pull/push
//! stream.

use vstd::prelude::*;

use crate::client::Client;
use crate::msg::Message;

verus! {

/// The reference ceiling for one background wait, in milliseconds.
pub const BACKGROUND_CEILING_MS: u64 = 25000;

/// What one background request came to.
#[derive(Clone, Copy, Debug, PartialEq, Eq, Structural)]
pub enum BackgroundResult {
    /// The worker replied after the given number of milliseconds, below the
    /// ceiling.
    Done { elapsed_ms: u64 },
    /// No reply arrived within the ceiling; the request's later completion,
    /// if any, is discarded with the abandoned reply path.
    TimedOut,
}

/// The outcome a background request is owed: a reply that beats the ceiling
/// is a success carrying the elapsed time; a reply at or past the ceiling,
/// or none at all, is a timeout.
pub open spec fn spec_background_outcome(
    reply_after_ms: Option<u64>,
    ceiling_ms: u64,
) -> BackgroundResult {
    match reply_after_ms {
        Some(t) => if t < ceiling_ms {
            BackgroundResult::Done { elapsed_ms: t }
        } else {
            BackgroundResult::TimedOut
        },
        None => BackgroundResult::TimedOut,
    }
}

/// One background request against a worker that either replies after
/// `reply_after_ms` milliseconds or never (`None`): the tagged message joins
/// the inbound queue, the invoking thread is held at most `ceiling_ms`, and
/// the outcome is a success with the elapsed time exactly when the reply
/// beat the ceiling. The session's delivery state is left untouched: the
/// single-use reply path is not the outbound channel.
pub fn notify_background(
    client: &mut Client,
    tag: String,
    reply_after_ms: Option<u64>,
    ceiling_ms: u64,
) -> (r: BackgroundResult)
    ensures
        final(client).inbound@ == old(client).inbound@.push(Message::BackgroundMessage(tag)),
        final(client).delivery == old(client).delivery,
        final(client).env == old(client).env,
        r == spec_background_outcome(reply_after_ms, ceiling_ms),
        r matches BackgroundResult::Done { elapsed_ms } ==> elapsed_ms < ceiling_ms,
{
    client.send_inbound(Message::BackgroundMessage(tag));
    match reply_after_ms {
        Some(t) => {
            if t < ceiling_ms {
                BackgroundResult::Done { elapsed_ms: t }
            } else {
                BackgroundResult::TimedOut
            }
        },
        None => BackgroundResult::TimedOut,
    }
}

/// Classifies the outcome of the blocking wait the boundary layer performed:
/// a reply received after `elapsed_ms` milliseconds is a success, a missing
/// reply is a timeout.
pub fn classify_background_wait(reply_received: bool, elapsed_ms: u64, ceiling_ms: u64) -> (r:
    BackgroundResult)
    requires
        reply_received ==> elapsed_ms < ceiling_ms,
    ensures
        reply_received ==> r == (BackgroundResult::Done { elapsed_ms }),
        !reply_received ==> r == BackgroundResult::TimedOut,
        r matches BackgroundResult::Done { elapsed_ms: e } ==> e < ceiling_ms,
{
    if reply_received {
        BackgroundResult::Done { elapsed_ms }
    } else {
        BackgroundResult::TimedOut
    }
}

} // verus!
