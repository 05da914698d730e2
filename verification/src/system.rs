//! The assembled echo subsystem and its event handlers.
//!
//! [`EchoSystem`] composes the shared-state governor, the pending echo queue
//! and the receive pipeline, together with the subsystem's two observable
//! outputs: the wire transcript (every payload whose transmit transfer has
//! completed, in order) and the diagnostic logs.  Each handler's contract
//! promises exactly one transition of the abstract machine in
//! [`crate::model`], so the ordering laws proved there hold of this code.
//!
//! Scheduling, as the surrounding runtime provides it: the receive handler
//! runs at the higher priority level and is never blocked by transmit-side
//! work; the echo handler and the transmit-completion handler share the lower
//! level and never run concurrently — which is what lets them pass the
//! transmit state through the governor without a lock.

use vstd::prelude::*;

use crate::buffer::clone_payload;
use crate::buffer::copy_into;
use crate::buffer::is_payload;
use crate::buffer::lemma_payloads_push;
use crate::buffer::payloads;
use crate::governor::Governor;
use crate::model::complete_step;
use crate::model::dispatch_step;
use crate::model::receive_step;
use crate::model::request_step;
use crate::model::SystemModel;
use crate::pipeline::ReceivePipeline;
use crate::queue::EchoQueue;
use crate::transfer::DmaChannel;
use crate::transfer::RxHalf;
use crate::transfer::TxHalf;
use crate::transfer::TxTransfer;
use crate::transfer::TxTransferHandle;

verus! {

/// The whole subsystem between events.
pub struct EchoSystem {
    /// Single-slot cell holding the transmit transfer state.
    pub governor: Governor,
    /// Bounded FIFO of payloads awaiting retransmission.
    pub pending: EchoQueue,
    /// The always-armed receive side.
    pub receiver: ReceivePipeline,
    /// Payloads whose transmit transfer has completed, in wire order.
    pub wire: Vec<Vec<u8>>,
    /// Diagnostic records: one per dispatched payload.
    pub received_log: Vec<Vec<u8>>,
    /// Diagnostic records: one per transmit-completion event.
    pub sent_log: Vec<Vec<u8>>,
}

impl View for EchoSystem {
    type V = SystemModel;

    open spec fn view(&self) -> SystemModel {
        SystemModel {
            tx_running: self.governor.contents().is_running(),
            tx_buf: self.governor.contents().buf_bytes(),
            pending: self.pending@,
            wire: payloads(self.wire@),
            received_log: payloads(self.received_log@),
            sent_log: payloads(self.sent_log@),
            completions: self.receiver.completion_count(),
            rearms: self.receiver.rearm_count(),
        }
    }
}

impl EchoSystem {
    /// The invariant every handler preserves: the governor holds a
    /// well-formed transmit state — its slot is never empty between events —
    /// the queue is within capacity and the receive pipeline is armed.
    pub open spec fn wf(self) -> bool {
        &&& self.governor.occupied()
        &&& self.governor.contents().wf()
        &&& self.pending.wf()
        &&& self.receiver.wf()
    }

    /// Assemble the subsystem from the resources hardware bring-up hands
    /// over: the split transmit and receive halves, one DMA channel for each,
    /// and two fixed-size buffers.  The transmitter starts idle; the receiver
    /// begins its first transfer at once.
    pub fn new(
        tx_buf: Vec<u8>,
        tx_channel: DmaChannel,
        tx: TxHalf,
        rx_buf: Vec<u8>,
        rx_channel: DmaChannel,
        rx: RxHalf,
    ) -> (s: Self)
        requires
            is_payload(tx_buf@),
            is_payload(rx_buf@),
        ensures
            s.wf(),
            s@ == (SystemModel {
                tx_running: false,
                tx_buf: tx_buf@,
                pending: Seq::empty(),
                wire: Seq::empty(),
                received_log: Seq::empty(),
                sent_log: Seq::empty(),
                completions: 0,
                rearms: 0,
            }),
    {
        let s = EchoSystem {
            governor: Governor::new(TxTransfer::Idle(tx_buf, tx_channel, tx)),
            pending: EchoQueue::new(),
            receiver: ReceivePipeline::new(rx_buf, rx_channel, rx),
            wire: Vec::new(),
            received_log: Vec::new(),
            sent_log: Vec::new(),
        };
        proof {
            assert(payloads(s.wire@) =~= Seq::<Seq<u8>>::empty());
            assert(payloads(s.received_log@) =~= Seq::<Seq<u8>>::empty());
            assert(payloads(s.sent_log@) =~= Seq::<Seq<u8>>::empty());
        }
        s
    }

    /// Receive-completion event, bound to the receive DMA channel and running
    /// at the higher priority level.  `received` holds the bytes the hardware
    /// deposited.  The payload is submitted to the queue — dropped silently
    /// if the queue is full — and the receive transfer is re-armed.  Never
    /// reports an error upward.
    pub fn on_rx(&mut self, received: &Vec<u8>)
        requires
            old(self).wf(),
            is_payload(received@),
        ensures
            final(self).wf(),
            final(self)@ == receive_step(old(self)@, received@),
    {
        self.receiver.on_rx(received, &mut self.pending);
        proof {
            assert(self@ =~= receive_step(old(self)@, received@));
        }
    }

    /// One invocation of the dispatch layer: hand the queue's front payload,
    /// if any, to the echo handler.  Returns whether a payload was
    /// dispatched.
    pub fn dispatch_next(&mut self) -> (dispatched: bool)
        requires
            old(self).wf(),
        ensures
            final(self).wf(),
            dispatched == (old(self)@.pending.len() > 0),
            final(self)@ == dispatch_step(old(self)@),
    {
        match self.pending.next() {
            Some(data) => {
                self.echo(data);
                proof {
                    assert(self@ =~= dispatch_step(old(self)@));
                }
                true
            },
            None => false,
        }
    }

    /// Echo handler: one invocation per dispatched payload.  Records the
    /// payload, acquires the transmit state from the governor, finishes any
    /// in-flight transfer first — on hardware this is the one true blocking
    /// wait in the subsystem, bounded by one transfer duration; its completed
    /// payload reaches the wire — then loads the payload into the transmit
    /// buffer and starts a new transfer.
    pub fn echo(&mut self, data: Vec<u8>)
        requires
            old(self).wf(),
            is_payload(data@),
        ensures
            final(self).wf(),
            final(self)@ == request_step(old(self)@, data@),
    {
        let record = clone_payload(&data);
        proof {
            lemma_payloads_push(self.received_log@, record);
        }
        self.received_log.push(record);
        let (mut buf, channel, tx) = match self.governor.take() {
            TxTransfer::Idle(buf, channel, tx) => (buf, channel, tx),
            TxTransfer::Running(transfer) => {
                let (buf, channel, tx) = transfer.wait();
                let completed = clone_payload(&buf);
                proof {
                    lemma_payloads_push(self.wire@, completed);
                }
                self.wire.push(completed);
                (buf, channel, tx)
            },
        };
        copy_into(&mut buf, &data);
        self.governor.put(TxTransfer::Running(TxTransferHandle::start(buf, channel, tx)));
        proof {
            assert(self@ =~= request_step(old(self)@, data@));
        }
    }

    /// Whether a transmit transfer is currently in flight.
    pub fn is_transmitting(&self) -> (r: bool)
        requires
            self.wf(),
        ensures
            r == self@.tx_running,
    {
        self.governor.holds_running()
    }

    /// Transmit-completion event, bound to the transmit DMA channel.  The
    /// state must be `Running` — reaching this handler means a transfer was
    /// active; anything else is a contract breach.  Retires the handle (the
    /// hardware has already signalled completion, so the wait returns at
    /// once), records the transmitted bytes, and returns the buffer, channel
    /// and transmit half to `Idle`.
    pub fn on_tx(&mut self)
        requires
            old(self).wf(),
            old(self)@.tx_running,
        ensures
            final(self).wf(),
            final(self)@ == complete_step(old(self)@),
    {
        let (buf, channel, tx) = match self.governor.take() {
            TxTransfer::Running(transfer) => transfer.wait(),
            TxTransfer::Idle(_, _, _) => unreached(),
        };
        let completed = clone_payload(&buf);
        proof {
            lemma_payloads_push(self.wire@, completed);
        }
        self.wire.push(completed);
        let record = clone_payload(&buf);
        proof {
            lemma_payloads_push(self.sent_log@, record);
        }
        self.sent_log.push(record);
        self.governor.put(TxTransfer::Idle(buf, channel, tx));
        proof {
            assert(self@ =~= complete_step(old(self)@));
        }
    }
}

/// At every observable instant — whenever the subsystem invariant holds,
/// which is outside any active handler invocation — the governor holds
/// exactly one transmit state, `Idle` or `Running`, and is never empty.
pub proof fn lemma_governor_never_empty(s: EchoSystem)
    requires
        s.wf(),
    ensures
        s.governor.occupied(),
        (s.governor.contents() is Idle) <==> !(s.governor.contents() is Running),
{
}

} // verus!
