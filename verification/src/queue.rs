//! The pending echo queue: a bounded FIFO of completed receive payloads
//! awaiting retransmission.
//!
//! Producer: the receive pipeline, once per receive completion.  Consumer:
//! the echo dispatcher, once per dispatched payload.  The queue holds at most
//! [`crate::QUEUE_CAPACITY`] payloads; a submission while it is full is
//! dropped silently — the producer never blocks and never learns of the loss.

use vstd::prelude::*;

use crate::buffer::is_payload;
use crate::buffer::payloads;
use crate::QUEUE_CAPACITY;

verus! {

/// What submitting a payload does to the queue's contents: appended at the
/// back when there is room, dropped when the queue is full.
pub open spec fn spec_submit(q: Seq<Seq<u8>>, p: Seq<u8>) -> Seq<Seq<u8>> {
    if q.len() < QUEUE_CAPACITY {
        q.push(p)
    } else {
        q
    }
}

/// Bounded FIFO of completed receive payloads, front first.
pub struct EchoQueue {
    items: Vec<Vec<u8>>,
}

impl View for EchoQueue {
    type V = Seq<Seq<u8>>;

    closed spec fn view(&self) -> Seq<Seq<u8>> {
        payloads(self.items@)
    }
}

impl EchoQueue {
    /// The queue never exceeds its capacity and every queued payload has the
    /// fixed buffer length.
    pub open spec fn wf(self) -> bool {
        &&& self@.len() <= QUEUE_CAPACITY
        &&& forall|i: int| 0 <= i < self@.len() ==> is_payload(#[trigger] self@[i])
    }

    /// An empty queue.
    pub fn new() -> (q: Self)
        ensures
            q.wf(),
            q@ == Seq::<Seq<u8>>::empty(),
    {
        let q = EchoQueue { items: Vec::new() };
        proof {
            assert(q@ =~= Seq::<Seq<u8>>::empty());
        }
        q
    }

    /// How many payloads are waiting.
    pub fn len(&self) -> (n: usize)
        ensures
            n == self@.len(),
    {
        self.items.len()
    }

    /// Submit a completed payload.  When there is room it joins the back of
    /// the queue and `accepted` is true; when the queue is full it is dropped
    /// and `accepted` is false.  Never blocks, never fails.
    pub fn submit(&mut self, payload: Vec<u8>) -> (accepted: bool)
        requires
            old(self).wf(),
            is_payload(payload@),
        ensures
            final(self).wf(),
            accepted == (old(self)@.len() < QUEUE_CAPACITY),
            final(self)@ == spec_submit(old(self)@, payload@),
    {
        if self.items.len() < QUEUE_CAPACITY {
            let ghost prior = self@;
            self.items.push(payload);
            proof {
                assert(self@ =~= prior.push(payload@));
            }
            true
        } else {
            false
        }
    }

    /// Remove and return the front payload, oldest first; `None` when the
    /// queue is empty.
    pub fn next(&mut self) -> (front: Option<Vec<u8>>)
        requires
            old(self).wf(),
        ensures
            final(self).wf(),
            old(self)@.len() == 0 ==> front is None && final(self)@ == old(self)@,
            old(self)@.len() > 0 ==> {
                &&& front is Some
                &&& front->0@ == old(self)@[0]
                &&& final(self)@ == old(self)@.drop_first()
            },
    {
        if self.items.len() == 0 {
            None
        } else {
            let ghost prior = self@;
            let front = self.items.remove(0);
            proof {
                assert(self@ =~= prior.drop_first());
            }
            Some(front)
        }
    }
}

} // verus!
