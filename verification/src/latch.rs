//! The level-triggered latch at the heart of every signal.
//!
//! The latch is a single boolean: `emit` engages it (idempotently),
//! `check` observes it, `check_and_reset` observes and clears it in one
//! step.  It is level-triggered, not a counter: several emissions collapse
//! into one observation.

use vstd::prelude::*;

verus! {

/// The latch state after an emission: engaged, whatever it was before.
pub open spec fn spec_emit(engaged: bool) -> bool {
    true
}

/// The latch state after `check_and_reset`: cleared.
pub open spec fn spec_reset(engaged: bool) -> bool {
    false
}

/// A binary, level-triggered latch.
pub struct SignalLatch {
    engaged: bool,
}

impl SignalLatch {
    /// Whether the latch is currently engaged.
    pub closed spec fn spec_engaged(&self) -> bool {
        self.engaged
    }

    /// Create a latch in the clear state.
    pub fn new() -> (r: SignalLatch)
        ensures
            !r.spec_engaged(),
    {
        SignalLatch { engaged: false }
    }

    /// Engage the latch.  Emitting an already-engaged latch is idempotent.
    pub fn emit(&mut self)
        ensures
            final(self).spec_engaged() == spec_emit(old(self).spec_engaged()),
    {
        self.engaged = true;
    }

    /// Observe the latch without changing it.
    pub fn check(&self) -> (r: bool)
        ensures
            r == self.spec_engaged(),
    {
        self.engaged
    }

    /// Observe the latch and clear it in one step.
    pub fn check_and_reset(&mut self) -> (r: bool)
        ensures
            r == old(self).spec_engaged(),
            final(self).spec_engaged() == spec_reset(old(self).spec_engaged()),
    {
        let r = self.engaged;
        self.engaged = false;
        r
    }
}

/// Law: the signal is level-triggered.  After an emission a check observes
/// the latch engaged; after a check-and-reset an immediate second check
/// observes it clear; and a wait that begins after an emission and before
/// any reset observes the latch engaged at once.
pub proof fn lemma_signal_level_trigger(engaged: bool)
    ensures
        spec_emit(engaged) == true,
        spec_reset(spec_emit(engaged)) == false,
        spec_emit(spec_emit(engaged)) == true,
{
}

} // verus!
