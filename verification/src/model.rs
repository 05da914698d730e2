//! The abstract machine behind the contracts.
//!
//! [`SystemModel`] is the mathematical state of the whole subsystem; the four
//! transition functions say exactly what each event handler does to it, and
//! the executable handlers in [`crate::system`] each promise to realise one
//! transition.  The lemmas below state the ordering laws of the subsystem —
//! one re-arm per completion, FIFO retransmission, silent overflow, clean
//! buffer reuse — over arbitrary event sequences.

use vstd::prelude::*;

use crate::queue::spec_submit;
use crate::QUEUE_CAPACITY;

verus! {

/// Abstract state of the echo subsystem.
#[verifier::ext_equal]
pub struct SystemModel {
    /// Whether a transmit transfer is in flight.
    pub tx_running: bool,
    /// Contents of the transmit buffer; while running, the in-flight payload.
    pub tx_buf: Seq<u8>,
    /// Payloads queued for retransmission, front first.
    pub pending: Seq<Seq<u8>>,
    /// Payloads whose transmit transfer has completed, in wire order.
    pub wire: Seq<Seq<u8>>,
    /// Diagnostic records: one per dispatched payload.
    pub received_log: Seq<Seq<u8>>,
    /// Diagnostic records: one per transmit-completion event.
    pub sent_log: Seq<Seq<u8>>,
    /// Receive completions handled so far.
    pub completions: nat,
    /// Receive transfers re-armed so far.
    pub rearms: nat,
}

/// Effect of one receive-completion event with payload `p`: the payload joins
/// the pending queue (or is dropped when the queue is full) and the receive
/// transfer is re-armed, once.
pub open spec fn receive_step(m: SystemModel, p: Seq<u8>) -> SystemModel {
    SystemModel {
        pending: spec_submit(m.pending, p),
        completions: m.completions + 1,
        rearms: m.rearms + 1,
        ..m
    }
}

/// Effect of one echo-handler invocation with payload `p`: the payload is
/// recorded, any in-flight transfer is finished first — its bytes reach the
/// wire — then `p` is loaded into the transmit buffer and a new transfer
/// starts.
pub open spec fn request_step(m: SystemModel, p: Seq<u8>) -> SystemModel {
    SystemModel {
        tx_running: true,
        tx_buf: p,
        wire: if m.tx_running {
            m.wire.push(m.tx_buf)
        } else {
            m.wire
        },
        received_log: m.received_log.push(p),
        ..m
    }
}

/// Effect of the dispatch layer handing the queue's front payload, if any, to
/// the echo handler.
pub open spec fn dispatch_step(m: SystemModel) -> SystemModel {
    if m.pending.len() == 0 {
        m
    } else {
        request_step(SystemModel { pending: m.pending.drop_first(), ..m }, m.pending[0])
    }
}

/// Effect of one transmit-completion event: the in-flight payload reaches the
/// wire, is recorded on the sent log, and the buffer returns to idle.
pub open spec fn complete_step(m: SystemModel) -> SystemModel {
    SystemModel {
        tx_running: false,
        wire: m.wire.push(m.tx_buf),
        sent_log: m.sent_log.push(m.tx_buf),
        ..m
    }
}

/// A burst of consecutive receive completions, one [`receive_step`] per
/// payload, in arrival order, with nothing dispatched in between.
pub open spec fn receive_burst(m: SystemModel, ps: Seq<Seq<u8>>) -> SystemModel
    decreases ps.len(),
{
    if ps.len() == 0 {
        m
    } else {
        receive_burst(receive_step(m, ps[0]), ps.drop_first())
    }
}

/// The payload an in-flight transfer will still deliver: one element while
/// running, none while idle.
pub open spec fn in_flight(m: SystemModel) -> Seq<Seq<u8>> {
    if m.tx_running {
        seq![m.tx_buf]
    } else {
        Seq::empty()
    }
}

/// Pump completion events and dispatcher invocations until the queue is empty
/// and the transmitter idle: the quiescence every backlog eventually reaches.
pub open spec fn drain(m: SystemModel) -> SystemModel
    decreases m.pending.len(), (if m.tx_running { 1int } else { 0int }),
{
    if m.tx_running {
        drain(complete_step(m))
    } else if m.pending.len() > 0 {
        drain(dispatch_step(m))
    } else {
        m
    }
}

/// For any run of consecutive receive completions, exactly one re-arm occurs
/// per completion — N completions give N re-arms — so the receive side is
/// never left without an active transfer.
pub proof fn lemma_rearm_per_completion(m: SystemModel, ps: Seq<Seq<u8>>)
    ensures
        receive_burst(m, ps).completions == m.completions + ps.len(),
        receive_burst(m, ps).rearms == m.rearms + ps.len(),
        m.rearms == m.completions ==> receive_burst(m, ps).rearms == receive_burst(
            m,
            ps,
        ).completions,
    decreases ps.len(),
{
    if ps.len() > 0 {
        lemma_rearm_per_completion(receive_step(m, ps[0]), ps.drop_first());
    }
}

/// A burst of receive completions appends its payloads to the pending queue
/// in arrival order until the queue is full; the rest are dropped.  Nothing
/// else changes.
pub proof fn lemma_burst_pending(m: SystemModel, ps: Seq<Seq<u8>>)
    requires
        m.pending.len() <= QUEUE_CAPACITY,
    ensures
        ({
            let room = QUEUE_CAPACITY - m.pending.len();
            let kept = if ps.len() <= room {
                ps.len() as int
            } else {
                room
            };
            receive_burst(m, ps).pending == m.pending + ps.take(kept)
        }),
        receive_burst(m, ps).pending.len() <= QUEUE_CAPACITY,
        receive_burst(m, ps).tx_running == m.tx_running,
        receive_burst(m, ps).tx_buf == m.tx_buf,
        receive_burst(m, ps).wire == m.wire,
        receive_burst(m, ps).received_log == m.received_log,
        receive_burst(m, ps).sent_log == m.sent_log,
    decreases ps.len(),
{
    let room = QUEUE_CAPACITY - m.pending.len();
    let kept = if ps.len() <= room {
        ps.len() as int
    } else {
        room
    };
    if ps.len() == 0 {
        assert(m.pending + ps.take(0) =~= m.pending);
    } else {
        let m1 = receive_step(m, ps[0]);
        lemma_burst_pending(m1, ps.drop_first());
        let room1 = QUEUE_CAPACITY - m1.pending.len();
        let kept1 = if ps.drop_first().len() <= room1 {
            ps.drop_first().len() as int
        } else {
            room1
        };
        if m.pending.len() < QUEUE_CAPACITY {
            assert(m1.pending == m.pending.push(ps[0]));
            assert(m1.pending + ps.drop_first().take(kept1) =~= m.pending + ps.take(kept));
        } else {
            assert(m1.pending == m.pending);
            assert(m1.pending + ps.drop_first().take(kept1) =~= m.pending + ps.take(kept));
        }
    }
}

/// Draining transmits the in-flight payload (if any) and then every queued
/// payload, in queue order: each reaches the wire and the sent log exactly
/// once, each queued payload is dispatched exactly once, and the system ends
/// idle with an empty queue.
pub proof fn lemma_drain(m: SystemModel)
    ensures
        drain(m).wire == m.wire + in_flight(m) + m.pending,
        drain(m).sent_log == m.sent_log + in_flight(m) + m.pending,
        drain(m).received_log == m.received_log + m.pending,
        drain(m).pending == Seq::<Seq<u8>>::empty(),
        !drain(m).tx_running,
        drain(m).completions == m.completions,
        drain(m).rearms == m.rearms,
    decreases m.pending.len(), (if m.tx_running { 1int } else { 0int }),
{
    if m.tx_running {
        let m1 = complete_step(m);
        lemma_drain(m1);
        assert(m1.wire + in_flight(m1) + m1.pending =~= m.wire + in_flight(m) + m.pending);
        assert(m1.sent_log + in_flight(m1) + m1.pending =~= m.sent_log + in_flight(m) + m.pending);
    } else if m.pending.len() > 0 {
        let m1 = dispatch_step(m);
        lemma_drain(m1);
        assert(m1.wire + in_flight(m1) + m1.pending =~= m.wire + in_flight(m) + m.pending);
        assert(m1.sent_log + in_flight(m1) + m1.pending =~= m.sent_log + in_flight(m) + m.pending);
        assert(m1.received_log + m1.pending =~= m.received_log + m.pending);
    } else {
        assert(m.wire + in_flight(m) + m.pending =~= m.wire);
        assert(m.sent_log + in_flight(m) + m.pending =~= m.sent_log);
        assert(m.received_log + m.pending =~= m.received_log);
    }
}

/// FIFO retransmission: payloads received while the queue has room are
/// transmitted completely and in arrival order, with none reordered and none
/// lost.
pub proof fn lemma_fifo_order(m: SystemModel, ps: Seq<Seq<u8>>)
    requires
        !m.tx_running,
        m.pending.len() == 0,
        ps.len() <= QUEUE_CAPACITY,
    ensures
        drain(receive_burst(m, ps)).wire == m.wire + ps,
        drain(receive_burst(m, ps)).sent_log == m.sent_log + ps,
{
    lemma_burst_pending(m, ps);
    let b = receive_burst(m, ps);
    assert(b.pending =~= ps);
    lemma_drain(b);
    assert(b.wire + in_flight(b) + b.pending =~= m.wire + ps);
    assert(b.sent_log + in_flight(b) + b.pending =~= m.sent_log + ps);
}

/// Silent overflow: when more completions arrive than the queue can hold
/// before any is drained, the payloads beyond the capacity are dropped, and
/// the first [`QUEUE_CAPACITY`] are still transmitted intact, in order.
pub proof fn lemma_overflow_drops_tail(m: SystemModel, ps: Seq<Seq<u8>>)
    requires
        !m.tx_running,
        m.pending.len() == 0,
        ps.len() > QUEUE_CAPACITY,
    ensures
        receive_burst(m, ps).pending == ps.take(QUEUE_CAPACITY as int),
        drain(receive_burst(m, ps)).wire == m.wire + ps.take(QUEUE_CAPACITY as int),
        drain(receive_burst(m, ps)).sent_log == m.sent_log + ps.take(QUEUE_CAPACITY as int),
{
    lemma_burst_pending(m, ps);
    let b = receive_burst(m, ps);
    assert(b.pending =~= ps.take(QUEUE_CAPACITY as int));
    lemma_drain(b);
    assert(b.wire + in_flight(b) + b.pending =~= m.wire + ps.take(QUEUE_CAPACITY as int));
    assert(b.sent_log + in_flight(b) + b.pending =~= m.sent_log + ps.take(QUEUE_CAPACITY as int));
}

/// Clean idle reuse: a request issued while idle loads exactly the requested
/// payload — no residue of whatever the buffer held before — and reusing the
/// buffer for a later request after completion reproduces identical contents
/// for identical input.
pub proof fn lemma_idle_reuse(m: SystemModel, p: Seq<u8>)
    requires
        !m.tx_running,
    ensures
        request_step(m, p).tx_buf == p,
        request_step(complete_step(request_step(m, p)), p).tx_buf == request_step(m, p).tx_buf,
{
}

} // verus!
