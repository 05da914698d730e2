//! Single-slot ownership cell for the transmit transfer state.
//!
//! The echo dispatcher and the transmit-completion handler both mutate the
//! transmit state, from two contexts that the scheduling layer guarantees
//! never run concurrently (they share one priority level).  Under that
//! guarantee no lock is needed: a context takes the state out of the slot —
//! leaving it transiently empty — works on it exclusively, and puts the new
//! state back before returning.  Every `take` must be matched by exactly one
//! `put` before the next access; finding the slot empty on entry to a handler
//! is an unrecoverable contract breach, so `take` demands an occupied slot.

use vstd::prelude::*;

use crate::transfer::TxTransfer;

verus! {

/// The single-slot container holding the transmit transfer state.
pub struct Governor {
    slot: Option<TxTransfer>,
}

impl Governor {
    /// Whether the slot currently holds a state.
    pub closed spec fn occupied(self) -> bool {
        self.slot is Some
    }

    /// The state the slot holds (meaningful only while occupied).
    pub closed spec fn contents(self) -> TxTransfer {
        self.slot->0
    }

    /// Install the initial transmit state.
    pub fn new(state: TxTransfer) -> (g: Self)
        ensures
            g.occupied(),
            g.contents() == state,
    {
        Governor { slot: Some(state) }
    }

    /// Remove and return the slot's content, leaving the slot empty until the
    /// matching `put`.  Never blocks.
    pub fn take(&mut self) -> (state: TxTransfer)
        requires
            old(self).occupied(),
        ensures
            state == old(self).contents(),
            !final(self).occupied(),
    {
        match self.slot.take() {
            Some(state) => state,
            None => unreached(),
        }
    }

    /// Whether the state currently held is `Running`, observed without
    /// taking it.
    pub fn holds_running(&self) -> (r: bool)
        requires
            self.occupied(),
        ensures
            r == self.contents().is_running(),
    {
        match &self.slot {
            Some(TxTransfer::Running(_)) => true,
            Some(TxTransfer::Idle(_, _, _)) => false,
            None => unreached(),
        }
    }

    /// Install new content into the empty slot, matching the preceding
    /// `take`.  Never blocks.
    pub fn put(&mut self, state: TxTransfer)
        requires
            !old(self).occupied(),
        ensures
            final(self).occupied(),
            final(self).contents() == state,
    {
        self.slot = Some(state);
    }
}

} // verus!
