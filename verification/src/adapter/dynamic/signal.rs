//! The dynamic signal: a level-triggered latch dispatching to the
//! selected transport.

use vstd::prelude::*;
use crate::adapter::local::signal::{LocalSignal, LocalSignalBuilder};
use crate::adapter::localheap::signal::{HeapSignal, HeapSignalBuilder};
use crate::base::{ComError, ComResult};

verus! {

/// The emitter side of a dynamic signal.
#[derive(Debug)]
pub struct DynamicEmitter {}

/// The collector side of a dynamic signal.
#[derive(Debug)]
pub struct DynamicCollector {}

/// The transport-specific signal a dynamic signal dispatches to.
enum SignalSelector {
    Local(LocalSignal),
    Heap(HeapSignal),
}

/// A signal bound at construction time to one of the compiled-in
/// transports.
pub struct DynamicSignal {
    inner: SignalSelector,
}

impl DynamicSignal {
    /// Whether the latch is currently engaged.
    pub closed spec fn spec_engaged(&self) -> bool {
        match self.inner {
            SignalSelector::Local(s) => s.spec_engaged(),
            SignalSelector::Heap(s) => s.spec_engaged(),
        }
    }

    /// Get an emitter for this signal.
    pub fn emitter(&self) -> (r: ComResult<DynamicEmitter>)
        ensures
            r matches Ok(_),
    {
        Ok(DynamicEmitter {})
    }

    /// Get a collector for this signal.
    pub fn collector(&self) -> (r: ComResult<DynamicCollector>)
        ensures
            r matches Ok(_),
    {
        Ok(DynamicCollector {})
    }

    /// Communicate an occurrence to all collectors: engage the latch.
    pub fn emit(&mut self)
        ensures
            final(self).spec_engaged(),
    {
        match &mut self.inner {
            SignalSelector::Local(s) => s.emit(),
            SignalSelector::Heap(s) => s.notify(),
        }
    }

    /// Check the current state of the signal without changing it.
    pub fn check(&self) -> (r: ComResult<bool>)
        ensures
            r == Ok::<bool, ComError>(self.spec_engaged()),
    {
        match &self.inner {
            SignalSelector::Local(s) => s.check(),
            SignalSelector::Heap(s) => s.check(),
        }
    }

    /// Check the current state of the signal and reset it in one step.
    pub fn check_and_reset(&mut self) -> (r: ComResult<bool>)
        ensures
            r == Ok::<bool, ComError>(old(self).spec_engaged()),
            !final(self).spec_engaged(),
    {
        match &mut self.inner {
            SignalSelector::Local(s) => s.check_and_reset(),
            SignalSelector::Heap(s) => s.check_and_reset(),
        }
    }

    /// Wait until the signal is observed engaged.
    ///
    /// Blocking semantics demand the signal be engaged when the call is
    /// made: the sole owner of the latch could otherwise wait forever.
    pub fn wait(&self) -> (r: ComResult<bool>)
        requires
            self.spec_engaged(),
        ensures
            r == Ok::<bool, ComError>(true),
    {
        match &self.inner {
            SignalSelector::Local(s) => s.wait(),
            SignalSelector::Heap(s) => s.wait(),
        }
    }

    /// Wait until the signal is observed engaged, giving up with
    /// `Timeout` after the deadline.
    pub fn wait_timeout(&self, timeout_ms: u64) -> (r: ComResult<bool>)
        ensures
            self.spec_engaged() ==> r == Ok::<bool, ComError>(true),
            !self.spec_engaged() ==> r == Err::<bool, ComError>(ComError::Timeout),
    {
        match &self.inner {
            SignalSelector::Local(s) => s.wait_timeout(timeout_ms),
            SignalSelector::Heap(s) => s.wait_timeout(timeout_ms),
        }
    }
}

/// The transport-specific builder a dynamic signal builder dispatches
/// to.
enum SignalBuilderSelector {
    Local(LocalSignalBuilder),
    Heap(HeapSignalBuilder),
}

/// The builder for a dynamic signal.
pub struct DynamicSignalBuilder {
    inner: SignalBuilderSelector,
}

impl DynamicSignalBuilder {
    /// Wrap a local signal builder.
    pub fn from_local(builder: LocalSignalBuilder) -> (r: DynamicSignalBuilder) {
        DynamicSignalBuilder { inner: SignalBuilderSelector::Local(builder) }
    }

    /// Wrap a heap signal builder.
    pub fn from_heap(builder: HeapSignalBuilder) -> (r: DynamicSignalBuilder) {
        DynamicSignalBuilder { inner: SignalBuilderSelector::Heap(builder) }
    }

    /// Build the signal, initially clear.
    pub fn build(self) -> (r: ComResult<DynamicSignal>)
        ensures
            r matches Ok(s) && !s.spec_engaged(),
    {
        match self.inner {
            SignalBuilderSelector::Local(builder) => match builder.build() {
                Ok(s) => Ok(DynamicSignal { inner: SignalSelector::Local(s) }),
                Err(e) => Err(e),
            },
            SignalBuilderSelector::Heap(builder) => match builder.build() {
                Ok(s) => Ok(DynamicSignal { inner: SignalSelector::Heap(s) }),
                Err(e) => Err(e),
            },
        }
    }
}

} // verus!
