//! The worker channel, modelled as an unbounded first-in/first-out queue.
//!
//! The bridge establishes one inbound and one outbound queue per client.
//! Enqueuing never blocks and never applies backpressure; dequeuing observes
//! items in exactly the order they were enqueued.

use vstd::prelude::*;

use crate::msg::FromMsg;
use crate::msg::ToMsg;

verus! {

/// An unbounded FIFO queue. The view is the sequence of queued items, oldest
/// first.
pub struct FifoQueue<T> {
    items: Vec<T>,
}

impl<T> FifoQueue<T> {
    /// The queued items, in the order they will be dequeued.
    pub closed spec fn view(&self) -> Seq<T> {
        self.items@
    }

    /// Creates an empty queue.
    pub fn new() -> (r: FifoQueue<T>)
        ensures
            r@ == Seq::<T>::empty(),
    {
        FifoQueue { items: Vec::new() }
    }

    /// Number of queued items.
    pub fn len(&self) -> (r: usize)
        ensures
            r == self@.len(),
    {
        self.items.len()
    }

    /// Enqueues an item at the back. Unbounded: always succeeds, never
    /// blocks the caller.
    pub fn push_back(&mut self, item: T)
        ensures
            final(self)@ == old(self)@.push(item),
    {
        self.items.push(item);
    }

    /// Dequeues the oldest item, or returns `None` on an empty queue.
    pub fn pop_front(&mut self) -> (r: Option<T>)
        ensures
            old(self)@.len() == 0 ==> r is None && final(self)@ == old(self)@,
            old(self)@.len() > 0 ==> (r matches Some(x) && x == old(self)@[0] && final(self)@
                == old(self)@.drop_first()),
    {
        if self.items.len() == 0 {
            None
        } else {
            let x = self.items.remove(0);
            proof {
                assert(self.items@ =~= old(self)@.drop_first());
            }
            Some(x)
        }
    }
}

/// The FIFO guarantee, end to end: a pass-through worker that echoes every
/// inbound request back as an outbound message yields, at the receiving side,
/// exactly the submitted payloads in submission order.
pub fn echo_pipe(inputs: &Vec<ToMsg>) -> (out: Vec<FromMsg>)
    ensures
        out@.len() == inputs@.len(),
        forall|i: int|
            0 <= i < inputs@.len() ==> (#[trigger] out@[i]).payload@ == inputs@[i].payload@,
{
    let mut inbound: FifoQueue<ToMsg> = FifoQueue::new();
    let mut outbound: FifoQueue<FromMsg> = FifoQueue::new();

    // The host submits every request, in order.
    let n = inputs.len();
    let mut i: usize = 0;
    while i < n
        invariant
            n == inputs@.len(),
            i <= n,
            inbound@.len() == i,
            forall|j: int|
                0 <= j < i ==> (#[trigger] inbound@[j]).payload@ == inputs@[j].payload@,
        decreases n - i,
    {
        let payload = copy_bytes(&inputs[i].payload);
        inbound.push_back(ToMsg { payload });
        i = i + 1;
    }

    // The pass-through worker drains the inbound queue in order, echoing each
    // request as an outbound message.
    while inbound.len() > 0
        invariant
            inbound@.len() + outbound@.len() == inputs@.len(),
            forall|j: int|
                0 <= j < outbound@.len() ==> (#[trigger] outbound@[j]).payload@ == inputs@[
                    j
                ].payload@,
            forall|j: int|
                0 <= j < inbound@.len() ==> (#[trigger] inbound@[j]).payload@ == inputs@[
                    outbound@.len() + j
                ].payload@,
        decreases inbound@.len(),
    {
        let msg = inbound.pop_front();
        match msg {
            Some(m) => {
                outbound.push_back(FromMsg { payload: m.payload });
            },
            None => {
                proof {
                    assert(false);
                }
            },
        }
    }

    // The host drains the outbound queue, observing worker emission order.
    let mut out: Vec<FromMsg> = Vec::new();
    while outbound.len() > 0
        invariant
            out@.len() + outbound@.len() == inputs@.len(),
            forall|j: int|
                0 <= j < out@.len() ==> (#[trigger] out@[j]).payload@ == inputs@[j].payload@,
            forall|j: int|
                0 <= j < outbound@.len() ==> (#[trigger] outbound@[j]).payload@ == inputs@[
                    out@.len() + j
                ].payload@,
        decreases outbound@.len(),
    {
        let msg = outbound.pop_front();
        match msg {
            Some(m) => {
                out.push(m);
            },
            None => {
                proof {
                    assert(false);
                }
            },
        }
    }
    out
}

/// Copies a byte buffer.
pub fn copy_bytes(data: &Vec<u8>) -> (r: Vec<u8>)
    ensures
        r@ == data@,
{
    vstd::slice::slice_to_vec(data.as_slice())
}

} // verus!
