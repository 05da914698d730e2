//! Verified core of a full-duplex serial echo subsystem.
//!
//! A byte-oriented serial link is serviced by two fixed-size transfer buffers
//! driven by direct-memory-access (DMA) channels: one buffer continuously
//! receives, the other retransmits every completed payload.  The part worth
//! proving — and the whole content of this crate — is the transfer-buffer
//! ownership state machine and the hand-off protocol that let the receive
//! pipeline, the echo dispatcher and the transmit-completion handler share
//! those buffers without aliasing, lost completions or a missed re-arm.
//!
//! The hardware itself (peripheral bring-up, the DMA engine, the interrupt
//! dispatch runtime) stays outside: a host harness delivers completion events
//! and the received bytes to the handlers here, exactly as an interrupt-driven
//! runtime would.

use vstd::prelude::*;

pub mod buffer;
pub mod governor;
pub mod model;
pub mod pipeline;
pub mod queue;
pub mod system;
pub mod transfer;

verus! {

/// Length in bytes of every transfer buffer.  Payloads are always full
/// buffers: there is no variable-length framing.
pub const BUF_SIZE: usize = 12;

/// Capacity of the pending echo queue.  A payload submitted while the queue
/// is full is dropped silently: the receive side never blocks.
pub const QUEUE_CAPACITY: usize = 4;

} // verus!
