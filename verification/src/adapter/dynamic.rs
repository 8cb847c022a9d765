//! The dynamic transport adapter: late binding over the compiled-in
//! transports.
//!
//! Type erasure is not possible for the primitives because their type
//! parameters guarantee type safety, so the dynamic adapter is a tagged
//! variant over the closed set of supported adapters; every outer method
//! dispatches to the selected inner adapter, and the contracts of the
//! primitives do not change.

use vstd::prelude::*;
use crate::adapter::local::Local;
use crate::adapter::localheap::HeapAdapter;
use crate::base::Version;
use crate::id::Label;

pub mod event;
pub mod signal;

verus! {

/// The static identity of the dynamic adapter.
#[derive(Debug)]
pub struct DynamicStaticConfig {}

impl DynamicStaticConfig {
    /// The class name of the adapter.
    pub fn name(&self) -> (r: &'static str)
        ensures
            r@ == "DynamicAdapter"@,
    {
        "DynamicAdapter"
    }

    /// The vendor of the adapter.
    pub fn vendor(&self) -> (r: &'static str)
        ensures
            r@ == "Qorix GmbH"@,
    {
        "Qorix GmbH"
    }

    /// The version of the adapter.
    pub fn version(&self) -> (r: Version)
        ensures
            r == (Version { major: 0, minor: 1, patch: 0 }),
    {
        Version::new(0, 1, 0)
    }
}

/// The closed set of transports the dynamic adapter can select.
pub enum AdapterSelector {
    Local(Local),
    Heap(HeapAdapter),
}

/// Transport-specific construction of the dynamic adapter.
///
/// `Dynamic` implements this for every supported transport adapter.
pub trait DynamicNew<T> {
    /// Create a dynamic adapter bound to the given inner adapter.
    fn new(inner: T) -> Dynamic;
}

/// A transport adapter bound at construction time to one of the
/// compiled-in transports.
pub struct Dynamic {
    inner: AdapterSelector,
}

impl DynamicNew<Local> for Dynamic {
    /// Bind the dynamic adapter to the local transport.
    fn new(inner: Local) -> (r: Dynamic) {
        Dynamic { inner: AdapterSelector::Local(inner) }
    }
}

impl DynamicNew<HeapAdapter> for Dynamic {
    /// Bind the dynamic adapter to the heap transport.
    fn new(inner: HeapAdapter) -> (r: Dynamic) {
        Dynamic { inner: AdapterSelector::Heap(inner) }
    }
}

impl Dynamic {
    /// Read access to the selected inner adapter.
    pub fn adapter(&self) -> (r: &AdapterSelector) {
        &self.inner
    }

    /// The static configuration of the adapter.
    pub fn static_config(&self) -> (r: DynamicStaticConfig) {
        DynamicStaticConfig {}
    }

    /// Get a signal builder dispatching to the selected transport.
    pub fn signal_builder(&self, label: Label) -> (r: signal::DynamicSignalBuilder) {
        match &self.inner {
            AdapterSelector::Local(inner) => signal::DynamicSignalBuilder::from_local(
                inner.signal_builder(label),
            ),
            AdapterSelector::Heap(inner) => signal::DynamicSignalBuilder::from_heap(
                inner.signal_builder(label),
            ),
        }
    }

    /// Get a topic builder dispatching to the selected transport.
    pub fn topic_builder<T>(&self, label: Label) -> (r: event::DynamicEventBuilder<T>)
        ensures
            r.spec_max_queue_depth() == 1,
            r.spec_queue_policy() == crate::base::QueuePolicy::ErrorOnFull,
            r.spec_max_fan_in() == 1,
            r.spec_max_fan_out() == 1,
    {
        match &self.inner {
            AdapterSelector::Local(inner) => event::DynamicEventBuilder::from_local(
                inner.topic_builder(label),
            ),
            AdapterSelector::Heap(inner) => event::DynamicEventBuilder::from_heap(
                inner.topic_builder(label),
            ),
        }
    }
}

} // verus!
