//! A gate through which the render callback wakes a parked consumer.
//!
//! A waker gate is level-triggered: it records that data is available, not how
//! often data arrived, and hands out a waiter at most once per registration.

use vstd::prelude::*;

verus! {

/// One pending waiter and one data-available flag. `W` is whatever wakes the
/// consumer's task; a gate stores it and hands it back, nothing more.
pub struct WakerGate<W> {
    pub waiter: Option<W>,
    pub has_data: bool,
}

impl<W> WakerGate<W> {
    /// A gate with no waiter and no data seen.
    pub open spec fn spec_new() -> WakerGate<W> {
        WakerGate { waiter: None, has_data: false }
    }

    /// This gate after a consumer registered `handle`: the handle replaces any
    /// earlier waiter, and the data-available flag is cleared.
    pub open spec fn registered(self, handle: W) -> WakerGate<W> {
        WakerGate { waiter: Some(handle), has_data: false }
    }

    /// Whether a push that stored `stored` samples turns the flag on.
    pub open spec fn rises(self, stored: nat) -> bool {
        stored > 0 && !self.has_data
    }

    /// The waiter a push that stored `stored` samples must wake, if any.
    pub open spec fn woken(self, stored: nat) -> Option<W> {
        if self.rises(stored) {
            self.waiter
        } else {
            None
        }
    }

    /// This gate after a push that stored `stored` samples.
    pub open spec fn notified(self, stored: nat) -> WakerGate<W> {
        if self.rises(stored) {
            WakerGate { waiter: None, has_data: true }
        } else {
            self
        }
    }

    pub fn new() -> (gate: WakerGate<W>)
        ensures
            gate == Self::spec_new(),
    {
        WakerGate { waiter: None, has_data: false }
    }

    /// Registers `handle` as the one waiter and clears the data-available
    /// flag. A consumer calls this after it found the channel empty, and
    /// looks at the channel once more before it yields.
    pub fn register_waiter(&mut self, handle: W)
        ensures
            *final(self) == old(self).registered(handle),
    {
        self.has_data = false;
        self.waiter = Some(handle);
    }

    /// Records a push that stored `stored` samples. Returns the waiter to
    /// wake: the registered one, if this push turned the flag on, and none
    /// otherwise, so that a run of pushes wakes a waiter once.
    pub fn notify(&mut self, stored: usize) -> (wake: Option<W>)
        ensures
            wake == old(self).woken(stored as nat),
            *final(self) == old(self).notified(stored as nat),
    {
        if stored > 0 && !self.has_data {
            self.has_data = true;
            self.waiter.take()
        } else {
            None
        }
    }
}

} // verus!
