//! The heap adapter's event: a notification latch with emitter and
//! listener sides.

use vstd::prelude::*;
use crate::base::{ComError, ComResult};
use crate::latch::{spec_emit, spec_reset, SignalLatch};

verus! {

/// A notification event backed by the in-process latch.
///
/// The notifying side engages the latch; the listening side observes it,
/// optionally clearing it.
pub struct HeapEvent {
    latch: SignalLatch,
}

impl HeapEvent {
    /// Whether the latch is currently engaged.
    pub closed spec fn spec_engaged(&self) -> bool {
        self.latch.spec_engaged()
    }

    /// Create an event in the clear state.
    pub fn new() -> (r: HeapEvent)
        ensures
            !r.spec_engaged(),
    {
        HeapEvent { latch: SignalLatch::new() }
    }

    /// Notify the event: engage the latch and make every listener
    /// observe it.  Notifying an already engaged event is idempotent.
    pub fn notify(&mut self)
        ensures
            final(self).spec_engaged() == spec_emit(old(self).spec_engaged()),
            final(self).spec_engaged(),
    {
        self.latch.emit();
    }

    /// Check the event flag without changing it.
    pub fn check(&self) -> (r: ComResult<bool>)
        ensures
            r == Ok::<bool, ComError>(self.spec_engaged()),
    {
        Ok(self.latch.check())
    }

    /// Check the event flag and reset it in one step.
    pub fn check_and_reset(&mut self) -> (r: ComResult<bool>)
        ensures
            r == Ok::<bool, ComError>(old(self).spec_engaged()),
            final(self).spec_engaged() == spec_reset(old(self).spec_engaged()),
            !final(self).spec_engaged(),
    {
        Ok(self.latch.check_and_reset())
    }

    /// Wait for a notification.
    ///
    /// Blocking semantics demand the event be engaged when the call is
    /// made: the sole owner of the latch could otherwise wait forever.
    pub fn wait(&self) -> (r: ComResult<bool>)
        requires
            self.spec_engaged(),
        ensures
            r == Ok::<bool, ComError>(true),
    {
        Ok(self.latch.check())
    }

    /// Wait for a notification, giving up with `Timeout` after the
    /// deadline.  A timed-out wait leaves the latch untouched.
    pub fn wait_timeout(&self, timeout_ms: u64) -> (r: ComResult<bool>)
        ensures
            self.spec_engaged() ==> r == Ok::<bool, ComError>(true),
            !self.spec_engaged() ==> r == Err::<bool, ComError>(ComError::Timeout),
    {
        if self.latch.check() {
            Ok(true)
        } else {
            Err(ComError::Timeout)
        }
    }
}

/// The builder for a heap event.
#[derive(Debug)]
pub struct HeapEventBuilder {}

impl HeapEventBuilder {
    /// Create an event builder.
    pub fn new() -> (r: HeapEventBuilder) {
        HeapEventBuilder {}
    }

    /// Build the event, initially clear.
    pub fn build(self) -> (r: ComResult<HeapEvent>)
        ensures
            r matches Ok(e) && !e.spec_engaged(),
    {
        Ok(HeapEvent::new())
    }
}

} // verus!
