//! Domain messages and the opaque frames that carry them across the boundary.
//!
//! The wire schema itself is an external capability: the bridge only moves
//! opaque byte buffers. A buffer is a well-formed frame exactly when it is
//! non-empty; an empty buffer is a protocol violation by the caller.

use vstd::prelude::*;

verus! {

/// A domain message submitted by the host to the worker.
pub struct ToMsg {
    pub payload: Vec<u8>,
}

/// A domain message emitted by the worker towards the host.
pub struct FromMsg {
    pub payload: Vec<u8>,
}

/// An inbound item on the worker channel: either a host request or a tagged
/// background wake-up carrying its own single-use reply path.
pub enum Message {
    Ui(ToMsg),
    BackgroundMessage(String),
}

/// A heap-owned encoded outbound frame, handle-managed on the receiving side.
/// Its bytes stay valid until the owning handle is released.
#[derive(Debug)]
pub struct RecvMessage(pub Vec<u8>);

impl RecvMessage {
    /// The frame's bytes, as the host will read them.
    pub open spec fn view(&self) -> Seq<u8> {
        self.0@
    }

    /// Number of bytes in the frame.
    pub fn msg_len(&self) -> (r: u64)
        requires
            self@.len() <= u64::MAX,
        ensures
            r == self@.len(),
    {
        self.0.len() as u64
    }

    /// Read access to the frame's bytes.
    pub fn msg_bytes(&self) -> (r: &Vec<u8>)
        ensures
            r@ == self@,
    {
        &self.0
    }
}

/// Decodes a host-supplied buffer into a request message. An empty buffer is
/// a protocol violation and yields `None`; the boundary layer treats that as
/// fatal.
pub fn decode_to_msg(data: &[u8]) -> (r: Option<ToMsg>)
    ensures
        r matches Some(m) ==> m.payload@ == data@ && data@.len() > 0,
        r is None <==> data@.len() == 0,
{
    if data.len() == 0 {
        None
    } else {
        Some(ToMsg { payload: vstd::slice::slice_to_vec(data) })
    }
}

/// Encodes a worker-emitted message into the frame handed to the host.
/// The frame carries exactly the message's payload.
pub fn encode_from_msg(msg: FromMsg) -> (r: RecvMessage)
    ensures
        r == (RecvMessage(msg.payload)),
        r@ == msg.payload@,
{
    RecvMessage(msg.payload)
}

} // verus!
