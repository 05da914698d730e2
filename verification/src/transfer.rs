//! Transfer handles and the transmit-side transfer state.
//!
//! A transfer handle is an opaque token for one in-flight DMA operation: it
//! ties one buffer, one DMA channel and one peripheral half together for the
//! duration of the operation.  A handle is created when a transfer starts and
//! consumed — by value, so it can never be waited on twice — when its
//! completion is retired, yielding the three resources back for reuse.

use vstd::prelude::*;

use crate::buffer::copy_into;
use crate::buffer::is_payload;

verus! {

/// Identifier token for one DMA channel.  Owning the token stands for
/// exclusive ownership of the hardware channel it names.
pub struct DmaChannel {
    /// Hardware channel number.
    pub id: u8,
}

/// Ownership token for the transmit half of the serial peripheral.
pub struct TxHalf {}

/// Ownership token for the receive half of the serial peripheral.
pub struct RxHalf {}

/// An in-flight transmit operation: the DMA engine is feeding the buffer's
/// bytes to the transmit half.
pub struct TxTransferHandle {
    /// Buffer owned by the hardware while the transfer runs.
    pub buf: Vec<u8>,
    /// DMA channel driving the transfer.
    pub channel: DmaChannel,
    /// Transmit half bound to the transfer.
    pub tx: TxHalf,
}

impl TxTransferHandle {
    /// The handle owns a full-length buffer.
    pub open spec fn wf(self) -> bool {
        is_payload(self.buf@)
    }

    /// Begin a transmit transfer: bind the buffer, channel and transmit half
    /// together until the hardware finishes sending the buffer's bytes.
    pub fn start(buf: Vec<u8>, channel: DmaChannel, tx: TxHalf) -> (t: Self)
        requires
            is_payload(buf@),
        ensures
            t.buf == buf,
            t.channel == channel,
            t.tx == tx,
            t.wf(),
    {
        TxTransferHandle { buf, channel, tx }
    }

    /// Retire the completed transfer, consuming the handle and yielding its
    /// resources back.  The buffer is unchanged: its bytes are exactly the
    /// payload that went out on the wire.  On hardware this waits on the
    /// completion flag; once the flag is set the wait returns at once.
    pub fn wait(self) -> (r: (Vec<u8>, DmaChannel, TxHalf))
        ensures
            r.0 == self.buf,
            r.1 == self.channel,
            r.2 == self.tx,
    {
        (self.buf, self.channel, self.tx)
    }
}

/// An in-flight receive operation: the DMA engine is depositing incoming
/// bytes into the buffer.
pub struct RxTransferHandle {
    /// Buffer owned by the hardware while the transfer runs.
    pub buf: Vec<u8>,
    /// DMA channel driving the transfer.
    pub channel: DmaChannel,
    /// Receive half bound to the transfer.
    pub rx: RxHalf,
}

impl RxTransferHandle {
    /// The handle owns a full-length buffer.
    pub open spec fn wf(self) -> bool {
        is_payload(self.buf@)
    }

    /// Begin a receive transfer: bind the buffer, channel and receive half
    /// together until the hardware has filled the buffer.
    pub fn start(buf: Vec<u8>, channel: DmaChannel, rx: RxHalf) -> (t: Self)
        requires
            is_payload(buf@),
        ensures
            t.buf == buf,
            t.channel == channel,
            t.rx == rx,
            t.wf(),
    {
        RxTransferHandle { buf, channel, rx }
    }

    /// Retire the completed transfer, consuming the handle.  `received` holds
    /// the bytes the DMA engine deposited; the handle's own buffer comes back
    /// with exactly those contents, together with the channel and the receive
    /// half, ready to be re-armed.
    pub fn complete(self, received: &Vec<u8>) -> (r: (Vec<u8>, DmaChannel, RxHalf))
        requires
            self.wf(),
            is_payload(received@),
        ensures
            r.0@ == received@,
            is_payload(r.0@),
            r.1 == self.channel,
            r.2 == self.rx,
    {
        let RxTransferHandle { mut buf, channel, rx } = self;
        copy_into(&mut buf, received);
        (buf, channel, rx)
    }
}

/// The transmit-side transfer state: exactly one of the two variants holds at
/// any observable instant.  `Running` owns the in-flight transfer's handle;
/// `Idle` owns the free buffer, the channel and the transmit half, so the
/// resources can never be split across variants.
pub enum TxTransfer {
    /// A transfer is in flight; the handle owns all transmit resources.
    Running(TxTransferHandle),
    /// No transfer is in flight; the state owns the buffer, the DMA channel
    /// and the transmit half directly.
    Idle(Vec<u8>, DmaChannel, TxHalf),
}

impl TxTransfer {
    /// Whichever variant holds, the transmit buffer has full length.
    pub open spec fn wf(self) -> bool {
        match self {
            TxTransfer::Running(t) => t.wf(),
            TxTransfer::Idle(buf, _, _) => is_payload(buf@),
        }
    }

    /// The bytes held by the transmit buffer, in either variant.
    pub open spec fn buf_bytes(self) -> Seq<u8> {
        match self {
            TxTransfer::Running(t) => t.buf@,
            TxTransfer::Idle(buf, _, _) => buf@,
        }
    }

    /// Whether a transmit transfer is in flight.
    pub open spec fn is_running(self) -> bool {
        self is Running
    }
}

} // verus!
