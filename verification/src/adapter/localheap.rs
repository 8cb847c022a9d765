//! The local heap transport adapter.
//!
//! The heap adapter is the reference implementation that backs every
//! sample with an owned heap buffer.  Its API shape is identical to a
//! zero-allocation transport, so user code does not change when another
//! transport is substituted.

use vstd::prelude::*;
use crate::base::Version;
use crate::id::Label;

pub mod buffer;
pub mod event;
pub mod rpc;
pub mod sample;
pub mod signal;
pub mod topic;

verus! {

/// The static identity of the heap adapter.
#[derive(Debug)]
pub struct HeapStaticConfig {}

impl HeapStaticConfig {
    /// The class name of the adapter.
    pub fn name(&self) -> (r: &'static str)
        ensures
            r@ == "HeapAdapter"@,
    {
        "HeapAdapter"
    }

    /// The vendor of the adapter.
    pub fn vendor(&self) -> (r: &'static str)
        ensures
            r@ == "Qorix GmbH"@,
    {
        "Qorix GmbH"
    }

    /// The version of the adapter.
    pub fn version(&self) -> (r: Version)
        ensures
            r == (Version { major: 0, minor: 1, patch: 0 }),
    {
        Version::new(0, 1, 0)
    }
}

/// The heap-backed in-process transport adapter.
#[derive(Debug)]
pub struct HeapAdapter {}

impl HeapAdapter {
    /// Create the heap adapter.
    pub fn new() -> (r: HeapAdapter) {
        HeapAdapter {}
    }

    /// The static configuration of the adapter.
    pub fn static_config(&self) -> (r: HeapStaticConfig) {
        HeapStaticConfig {}
    }

    /// Get a signal builder.
    pub fn signal_builder(&self, _label: Label) -> (r: signal::HeapSignalBuilder) {
        signal::HeapSignalBuilder::new()
    }

    /// Get an event builder.
    pub fn event_builder(&self, _label: Label) -> (r: event::HeapEventBuilder) {
        event::HeapEventBuilder::new()
    }

    /// Get a topic builder for the given payload type.
    pub fn topic_builder<T>(&self, _label: Label) -> (r: topic::HeapTopicBuilder<T>)
        ensures
            r.spec_max_queue_depth() == 1,
            r.spec_queue_policy() == crate::base::QueuePolicy::ErrorOnFull,
            r.spec_max_fan_in() == 1,
            r.spec_max_fan_out() == 1,
    {
        topic::HeapTopicBuilder::new()
    }

    /// Get a remote procedure builder for the given argument and result
    /// types.
    pub fn rpc_builder<Args, R>(&self, _label: Label) -> (r: rpc::HeapRemoteProcedureBuilder<
        Args,
        R,
    >)
        ensures
            r.spec_max_queue_depth() == 8,
            r.spec_max_invokers_client() == 1,
            r.spec_max_invokers_service() == 8,
    {
        rpc::HeapRemoteProcedureBuilder::new()
    }
}

} // verus!
