//! The receive pipeline: one buffer, re-armed forever.
//!
//! The pipeline owns exactly one receive buffer at all times and is
//! conceptually always running — there is no idle receive state.  On each
//! completion it retires the finished transfer, submits a copy of the payload
//! to the pending echo queue (dropping it silently if the queue is full) and
//! immediately re-arms the same buffer, channel and receive half.  The buffer
//! keeps its identity for the whole process lifetime; only its DMA binding is
//! recycled.  Ghost counters account for the completions handled and the
//! transfers re-armed: between events the two are always equal, so one
//! completion can never slip by without its re-arm.

use vstd::prelude::*;

use crate::buffer::clone_payload;
use crate::buffer::is_payload;
use crate::queue::spec_submit;
use crate::queue::EchoQueue;
use crate::transfer::DmaChannel;
use crate::transfer::RxHalf;
use crate::transfer::RxTransferHandle;

verus! {

/// The receive pipeline's state between completion events.
pub struct ReceivePipeline {
    transfer: Option<RxTransferHandle>,
    completions: Ghost<nat>,
    rearms: Ghost<nat>,
}

impl ReceivePipeline {
    /// Between events the pipeline always holds an active, well-formed
    /// transfer, and every completion handled so far has been re-armed.
    pub closed spec fn wf(self) -> bool {
        &&& self.transfer is Some
        &&& self.transfer->0.wf()
        &&& self.completions@ == self.rearms@
    }

    /// Whether the pipeline holds an active receive transfer.
    pub closed spec fn armed(self) -> bool {
        self.transfer is Some
    }

    /// Completion events handled so far.
    pub closed spec fn completion_count(self) -> nat {
        self.completions@
    }

    /// Transfers re-armed so far (the initial arm at construction is not a
    /// re-arm and is not counted).
    pub closed spec fn rearm_count(self) -> nat {
        self.rearms@
    }

    /// The DMA channel the pipeline's transfer is bound to.
    pub closed spec fn channel_id(self) -> u8 {
        self.transfer->0.channel.id
    }

    /// The bytes currently held by the pipeline's buffer.
    pub closed spec fn buffered(self) -> Seq<u8> {
        self.transfer->0.buf@
    }

    /// Build the pipeline: the first receive transfer begins immediately and
    /// unconditionally, there is no idle state to enter.
    pub fn new(buf: Vec<u8>, channel: DmaChannel, rx: RxHalf) -> (p: Self)
        requires
            is_payload(buf@),
        ensures
            p.wf(),
            p.completion_count() == 0,
            p.rearm_count() == 0,
            p.channel_id() == channel.id,
            p.buffered() == buf@,
    {
        ReceivePipeline {
            transfer: Some(RxTransferHandle::start(buf, channel, rx)),
            completions: Ghost(0),
            rearms: Ghost(0),
        }
    }

    /// Handle one receive-completion event: retire the finished transfer to
    /// recover the buffer (now holding `received`), submit a copy of the
    /// payload to the queue — dropped silently when the queue is full, the
    /// pipeline never blocks and never reports an error — and re-arm the same
    /// buffer, channel and half for the next transfer.
    pub fn on_rx(&mut self, received: &Vec<u8>, queue: &mut EchoQueue)
        requires
            old(self).wf(),
            old(queue).wf(),
            is_payload(received@),
        ensures
            final(self).wf(),
            final(queue).wf(),
            final(queue)@ == spec_submit(old(queue)@, received@),
            final(self).completion_count() == old(self).completion_count() + 1,
            final(self).rearm_count() == old(self).rearm_count() + 1,
            final(self).channel_id() == old(self).channel_id(),
            final(self).buffered() == received@,
    {
        let handle = match self.transfer.take() {
            Some(handle) => handle,
            None => unreached(),
        };
        let (buf, channel, rx) = handle.complete(received);
        self.completions = Ghost(self.completions@ + 1);
        let payload = clone_payload(&buf);
        let _ = queue.submit(payload);
        self.transfer = Some(RxTransferHandle::start(buf, channel, rx));
        self.rearms = Ghost(self.rearms@ + 1);
    }
}

/// Between events the receive side is never left without an active transfer,
/// and the transfers re-armed so far match the completions handled so far,
/// one for one.
pub proof fn lemma_pipeline_always_armed(p: ReceivePipeline)
    requires
        p.wf(),
    ensures
        p.armed(),
        p.rearm_count() == p.completion_count(),
{
}

} // verus!
