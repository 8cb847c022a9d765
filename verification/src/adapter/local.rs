//! The local in-process transport adapter.

use vstd::prelude::*;
use crate::base::Version;
use crate::id::Label;

pub mod signal;
pub mod topic;
pub mod rpc;

verus! {

/// The static identity of the local adapter.
#[derive(Debug)]
pub struct LocalStaticConfig {}

impl LocalStaticConfig {
    /// The class name of the adapter.
    pub fn name(&self) -> (r: &'static str)
        ensures
            r@ == "LocalAdapter"@,
    {
        "LocalAdapter"
    }

    /// The vendor of the adapter.
    pub fn vendor(&self) -> (r: &'static str)
        ensures
            r@ == "Qorix GmbH"@,
    {
        "Qorix GmbH"
    }

    /// The version of the adapter.
    pub fn version(&self) -> (r: Version)
        ensures
            r == (Version { major: 0, minor: 1, patch: 0 }),
    {
        Version::new(0, 1, 0)
    }
}

/// The local in-process transport adapter.
///
/// It mints builders for signals, topics and remote procedures whose
/// state lives entirely in this process.
#[derive(Debug)]
pub struct Local {}

impl Local {
    /// Create the local adapter.
    pub fn new() -> (r: Local) {
        Local {}
    }

    /// The static configuration of the adapter.
    pub fn static_config(&self) -> (r: LocalStaticConfig) {
        LocalStaticConfig {}
    }

    /// Get a signal builder.  The label names the instance; it is stored
    /// nowhere because the adapter is a factory, not a registry.
    pub fn signal_builder(&self, _label: Label) -> (r: signal::LocalSignalBuilder) {
        signal::LocalSignalBuilder::new()
    }

    /// Get a topic builder for the given payload type.
    pub fn topic_builder<T>(&self, _label: Label) -> (r: topic::LocalTopicBuilder<T>)
        ensures
            r.spec_max_queue_depth() == 1,
            r.spec_queue_policy() == crate::base::QueuePolicy::ErrorOnFull,
            r.spec_max_fan_in() == 1,
            r.spec_max_fan_out() == 1,
    {
        topic::LocalTopicBuilder::new()
    }

    /// Get a remote procedure builder for the given argument and result
    /// types.
    pub fn rpc_builder<Args, R>(&self, _label: Label) -> (r: rpc::LocalRpcBuilder<Args, R>)
        ensures
            r.spec_max_queue_depth() == 8,
            r.spec_max_invokers_client() == 1,
            r.spec_max_invokers_service() == 8,
    {
        rpc::LocalRpcBuilder::new()
    }
}

} // verus!
