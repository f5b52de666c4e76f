//! The completion signal: a single-slot notification between the interrupt
//! context and a waiting caller. The interrupt handler only acknowledges the
//! hardware event and posts here; whatever logic reacts to completion runs in
//! the consumer, decoupled from the handler.

use vstd::prelude::*;

verus! {

/// One pending-notification slot. The interrupt context posts, the waiting
/// caller takes; no application logic lives in between.
pub struct ReadySignal {
    pending: bool,
}

impl ReadySignal {
    /// Whether a posted notification is waiting to be consumed.
    pub closed spec fn is_pending(&self) -> bool {
        self.pending
    }

    /// A fresh slot, with nothing pending.
    pub fn new() -> (r: ReadySignal)
        ensures
            !r.is_pending(),
    {
        ReadySignal { pending: false }
    }

    /// The interrupt handler's half: record that the awaited event fired.
    /// Posting over an unconsumed notification keeps it pending.
    pub fn post(&mut self)
        ensures
            final(self).is_pending(),
    {
        self.pending = true;
    }

    /// The consumer's half: observe whether the event fired, consuming the
    /// notification if it did.
    pub fn take(&mut self) -> (r: bool)
        ensures
            r == old(self).is_pending(),
            !final(self).is_pending(),
    {
        let r = self.pending;
        self.pending = false;
        r
    }
}

} // verus!
