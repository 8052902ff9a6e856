//! The client session: one per bridge instance, created at startup.
//!
//! A session owns the inbound queue towards the worker and, depending on the
//! delivery mode fixed at construction, either the outbound queue (pull
//! mode, drained by a blocking host call) or a relay that forwards outbound
//! messages to the host notification channel (push mode). The mode is a
//! tagged variant decided once, never a nullable field checked per call.

use vstd::prelude::*;

use crate::env::Env;
use crate::msg::FromMsg;
use crate::msg::Message;
use crate::msg::RecvMessage;
use crate::msg::ToMsg;
use crate::msg::decode_to_msg;
use crate::msg::encode_from_msg;
use crate::queue::FifoQueue;
use crate::relay::RelayState;

verus! {

/// Start-up parameters handed over by the host.
pub struct StartParams {
    pub work_dir: String,
    pub version: String,
    pub disable_device_key: Option<bool>,
}

/// The delivery mode chosen at construction time.
#[derive(Clone, Copy, Debug, PartialEq, Eq, Structural)]
pub enum DeliveryMode {
    Pull,
    Push,
}

/// The host port value that disables push delivery.
pub const SIDESWAP_DART_PORT_DISABLED: i64 = -1;

/// The delivery mode a host port value selects: any real port means push
/// delivery through the notification channel, the disabled value means the
/// host will pull.
pub fn delivery_mode_for_port(dart_port: i64) -> (r: DeliveryMode)
    ensures
        r is Push <==> dart_port != SIDESWAP_DART_PORT_DISABLED,
{
    if dart_port != SIDESWAP_DART_PORT_DISABLED {
        DeliveryMode::Push
    } else {
        DeliveryMode::Pull
    }
}

/// The per-mode state: pull keeps the outbound queue for the host to drain;
/// push hands it to a relay and keeps only the relay's state.
pub enum Delivery {
    Pull { outbound: FifoQueue<FromMsg> },
    Push { relay: RelayState },
}

/// Why a submitted buffer was rejected. Any rejection is a protocol
/// violation by the caller; the boundary layer treats it as fatal.
#[derive(Clone, Copy, Debug, PartialEq, Eq, Structural)]
pub enum SubmitError {
    EmptyMessage,
}

/// Why a pull-mode receive was refused.
#[derive(Clone, Copy, Debug, PartialEq, Eq, Structural)]
pub enum RecvError {
    PushMode,
}

/// A live bridge client. Exactly one exists per bridge instance.
pub struct Client {
    pub env: Env,
    pub inbound: FifoQueue<Message>,
    pub delivery: Delivery,
}

impl Client {
    /// Whether this session retained the outbound queue (pull mode).
    pub open spec fn is_pull(&self) -> bool {
        self.delivery is Pull
    }

    /// The outbound queue's contents in pull mode.
    pub open spec fn outbound_view(&self) -> Seq<FromMsg>
        recommends
            self.is_pull(),
    {
        match self.delivery {
            Delivery::Pull { outbound } => outbound@,
            Delivery::Push { relay } => Seq::<FromMsg>::empty(),
        }
    }

    /// Creates the session for one bridge instance: fresh, empty channel
    /// pair, delivery mode fixed for the session's whole life.
    pub fn create(env: Env, mode: DeliveryMode) -> (r: Client)
        ensures
            r.env == env,
            r.inbound@ == Seq::<Message>::empty(),
            mode is Pull ==> r.is_pull() && r.outbound_view() == Seq::<FromMsg>::empty(),
            mode is Push ==> (r.delivery matches Delivery::Push { relay } && relay.delivered == 0
                && !relay.stopped),
    {
        let delivery = match mode {
            DeliveryMode::Pull => Delivery::Pull { outbound: FifoQueue::new() },
            DeliveryMode::Push => Delivery::Push { relay: RelayState::new() },
        };
        Client { env, inbound: FifoQueue::new(), delivery }
    }

    /// Decodes a host-supplied buffer and enqueues it for the worker.
    /// An empty buffer is rejected and leaves the session untouched; the
    /// caller treats that as a fatal protocol violation. Enqueuing never
    /// blocks and never fails.
    pub fn submit(&mut self, data: &[u8]) -> (r: Result<(), SubmitError>)
        ensures
            data@.len() == 0 <==> (r == Result::<(), SubmitError>::Err(SubmitError::EmptyMessage)),
            data@.len() > 0 <==> r is Ok,
            r is Err ==> *final(self) == *old(self),
            r is Ok ==> (final(self).inbound@.len() == old(self).inbound@.len() + 1
                && final(self).inbound@.subrange(0, old(self).inbound@.len() as int) == old(
                self,
            ).inbound@ && (final(self).inbound@.last() matches Message::Ui(m) && m.payload@
                == data@) && final(self).delivery == old(self).delivery && final(self).env == old(
                self,
            ).env),
    {
        match decode_to_msg(data) {
            None => Err(SubmitError::EmptyMessage),
            Some(m) => {
                self.inbound.push_back(Message::Ui(m));
                Ok(())
            },
        }
    }

    /// Enqueues an already-decoded request for the worker, the typed
    /// equivalent of a submitted buffer.
    pub fn send_inbound(&mut self, msg: Message)
        ensures
            final(self).inbound@ == old(self).inbound@.push(msg),
            final(self).delivery == old(self).delivery,
            final(self).env == old(self).env,
    {
        self.inbound.push_back(msg);
    }

    /// A worker emission in pull mode: the message joins the outbound queue
    /// the host will drain.
    pub fn push_outbound(&mut self, msg: FromMsg)
        requires
            old(self).is_pull(),
        ensures
            final(self).is_pull(),
            final(self).outbound_view() == old(self).outbound_view().push(msg),
            final(self).inbound@ == old(self).inbound@,
            final(self).env == old(self).env,
    {
        match &mut self.delivery {
            Delivery::Pull { outbound } => {
                outbound.push_back(msg);
            },
            Delivery::Push { .. } => {},
        }
    }

    /// The compute step of the blocking pull-mode receive: dequeues the
    /// oldest outbound message, if any, and encodes it as a frame for the
    /// host. Refused outright in push mode, where the relay owns the
    /// outbound queue.
    pub fn try_recv_msg(&mut self) -> (r: Result<Option<RecvMessage>, RecvError>)
        ensures
            final(self).inbound@ == old(self).inbound@,
            final(self).env == old(self).env,
            !old(self).is_pull() ==> (r == Result::<Option<RecvMessage>, RecvError>::Err(
                RecvError::PushMode,
            ) && *final(self) == *old(self)),
            old(self).is_pull() ==> final(self).is_pull() && (if old(self).outbound_view().len()
                == 0 {
                r == Result::<Option<RecvMessage>, RecvError>::Ok(None::<RecvMessage>)
                    && final(self).outbound_view() == old(self).outbound_view()
            } else {
                r matches Ok(Some(frame)) && frame@ == old(self).outbound_view()[0].payload@
                    && final(self).outbound_view() == old(self).outbound_view().drop_first()
            }),
    {
        match &mut self.delivery {
            Delivery::Pull { outbound } => {
                match outbound.pop_front() {
                    None => Ok(None),
                    Some(m) => Ok(Some(encode_from_msg(m))),
                }
            },
            Delivery::Push { .. } => Err(RecvError::PushMode),
        }
    }
}

/// Wraps a host request and enqueues it for the worker, never blocking: the
/// fire-and-forget submission path.
pub fn send_msg(client: &mut Client, msg: ToMsg)
    ensures
        final(client).inbound@ == old(client).inbound@.push(Message::Ui(msg)),
        final(client).delivery == old(client).delivery,
        final(client).env == old(client).env,
{
    client.send_inbound(Message::Ui(msg));
}

} // verus!
