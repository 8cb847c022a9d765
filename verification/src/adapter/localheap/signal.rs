//! The heap adapter's signal: a level-triggered latch.

use vstd::prelude::*;
use crate::base::{ComError, ComResult};
use crate::latch::{spec_emit, spec_reset, SignalLatch};

verus! {

/// A signal backed by the in-process latch.
pub struct HeapSignal {
    latch: SignalLatch,
}

impl HeapSignal {
    /// Whether the latch is currently engaged.
    pub closed spec fn spec_engaged(&self) -> bool {
        self.latch.spec_engaged()
    }

    /// Create a signal in the clear state.
    pub fn new() -> (r: HeapSignal)
        ensures
            !r.spec_engaged(),
    {
        HeapSignal { latch: SignalLatch::new() }
    }

    /// Communicate an occurrence to all listeners: engage the latch.
    /// Notifying an already engaged signal is idempotent.
    pub fn notify(&mut self)
        ensures
            final(self).spec_engaged() == spec_emit(old(self).spec_engaged()),
            final(self).spec_engaged(),
    {
        self.latch.emit();
    }

    /// Check the current state of the signal without changing it.
    pub fn check(&self) -> (r: ComResult<bool>)
        ensures
            r == Ok::<bool, ComError>(self.spec_engaged()),
    {
        Ok(self.latch.check())
    }

    /// Check the current state of the signal and reset it in one step.
    /// Returns whether the signal was engaged before the reset.
    pub fn check_and_reset(&mut self) -> (r: ComResult<bool>)
        ensures
            r == Ok::<bool, ComError>(old(self).spec_engaged()),
            final(self).spec_engaged() == spec_reset(old(self).spec_engaged()),
            !final(self).spec_engaged(),
    {
        Ok(self.latch.check_and_reset())
    }

    /// Wait until the signal is observed engaged.
    ///
    /// Blocking semantics demand the signal be engaged when the call is
    /// made: the sole owner of the latch could otherwise wait forever.
    pub fn wait(&self) -> (r: ComResult<bool>)
        requires
            self.spec_engaged(),
        ensures
            r == Ok::<bool, ComError>(true),
    {
        Ok(self.latch.check())
    }

    /// Wait until the signal is observed engaged, giving up with
    /// `Timeout` after the deadline.  A timed-out wait leaves the latch
    /// untouched.
    pub fn wait_timeout(&self, timeout_ms: u64) -> (r: ComResult<bool>)
        ensures
            self.spec_engaged() ==> r == Ok::<bool, ComError>(true),
            !self.spec_engaged() ==> r == Err::<bool, ComError>(ComError::Timeout),
    {
        if self.latch.check() {
            Ok(true)
        } else {
            Err(ComError::Timeout)
        }
    }
}

/// The builder for a heap signal.
#[derive(Debug)]
pub struct HeapSignalBuilder {}

impl HeapSignalBuilder {
    /// Create a signal builder.
    pub fn new() -> (r: HeapSignalBuilder) {
        HeapSignalBuilder {}
    }

    /// Build the signal, initially clear.
    pub fn build(self) -> (r: ComResult<HeapSignal>)
        ensures
            r matches Ok(s) && !s.spec_engaged(),
    {
        Ok(HeapSignal::new())
    }
}

} // verus!
