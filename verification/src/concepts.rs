//! The concept traits of the communication stack.
//!
//! The concepts name the roles that every transport's types play:
//! adapters mint builders, builders make primitives, primitives mint
//! port handles, and samples move payloads through them.  The concrete
//! transports of this crate state their exact behaviour as contracts on
//! their own types; the concepts fix the shared shape so that alternative
//! transports can slot in without altering call sites.

use vstd::prelude::*;
use crate::adapter::dynamic::{Dynamic, DynamicNew, DynamicStaticConfig};
use crate::adapter::local::{Local, LocalStaticConfig};
use crate::adapter::localheap::{HeapAdapter, HeapStaticConfig};
use crate::base::Version;

verus! {

/// The static identity every adapter carries.
pub trait StaticConfigConcept {
    /// The class name of the adapter.
    fn name(&self) -> &'static str;

    /// The vendor of the adapter.
    fn vendor(&self) -> &'static str;

    /// The version of the adapter.
    fn version(&self) -> Version;
}

/// An abstraction that connects to an underlying framework
/// implementation.
pub trait AdapterConcept {
    type StaticConfig: StaticConfigConcept;

    /// Get the static configuration of the adapter.
    fn static_config(&self) -> Self::StaticConfig;
}

/// Conversion of a concrete adapter into the dynamic adapter.
pub trait IntoDynamic {
    /// Wrap this adapter in the dynamic selector.
    fn into_dynamic(self) -> Dynamic;
}

/// An immutable sample: read access to one received payload.
pub trait SampleConcept<T> {
    /// Move the payload out of the sample.
    fn into_inner(self) -> T;
}

/// A mutable sample: exclusive access to one loaned payload.
pub trait SampleMutConcept<T> {
    type Sample: SampleConcept<T>;

    /// Transition the sample from mutable to immutable without copying.
    fn into_sample(self) -> Self::Sample;
}

/// A loaned sample whose payload is not yet written.
pub trait SampleMaybeUninitConcept<T> {
    type SampleMut: SampleMutConcept<T>;

    /// Write a payload into the buffer and mark it initialized.
    fn write(self, value: T) -> Self::SampleMut;
}

/// The producing port of a topic.
pub trait PublisherConcept<T> {
    type SampleMaybeUninit: SampleMaybeUninitConcept<T>;

    /// Loan an uninitialized sample for new data to be published.
    fn loan_uninit(&self) -> crate::base::ComResult<Self::SampleMaybeUninit>;
}

/// The consuming port of a topic.
pub trait SubscriberConcept<T> {
    type Sample: SampleConcept<T>;
}

/// A bounded queue of typed samples with producer and consumer ports.
pub trait TopicConcept<T> {
    type Publisher: PublisherConcept<T>;
    type Subscriber: SubscriberConcept<T>;
}

/// The builder for a topic.
pub trait TopicBuilderConcept<T>: Sized {
    type Topic: TopicConcept<T>;

    /// Set the queue depth of the topic.
    fn with_queue_depth(self, queue_depth: usize) -> Self;

    /// Set the overflow policy of the topic.
    fn with_queue_policy(self, queue_policy: crate::base::QueuePolicy) -> Self;

    /// Set the fan-in bound, limiting the number of publishers.
    fn with_max_fan_in(self, fan_in: usize) -> Self;

    /// Set the fan-out bound, limiting the number of subscribers.
    fn with_max_fan_out(self, fan_out: usize) -> Self;

    /// Build the topic.
    fn build(self) -> crate::base::ComResult<Self::Topic>;
}

/// The emitting side of a signal.
pub trait EmitterConcept {
    /// Communicate an occurrence to all collectors of the signal.
    fn emit(&mut self);
}

/// The collecting side of a signal.
pub trait CollectorConcept {
    /// Check the current state of the signal without changing it.
    fn check(&self) -> crate::base::ComResult<bool>;

    /// Check the current state of the signal and reset it in one step.
    fn check_and_reset(&mut self) -> crate::base::ComResult<bool>;
}

/// A level-triggered latch notifying collectors of occurrences.
pub trait SignalConcept {
    type Emitter;
    type Collector;
}

/// The builder for a signal.
pub trait SignalBuilderConcept: Sized {
    type Signal;

    /// Build the signal.
    fn build(self) -> crate::base::ComResult<Self::Signal>;
}

impl StaticConfigConcept for LocalStaticConfig {
    fn name(&self) -> &'static str {
        "LocalAdapter"
    }

    fn vendor(&self) -> &'static str {
        "Qorix GmbH"
    }

    fn version(&self) -> Version {
        Version::new(0, 1, 0)
    }
}

impl StaticConfigConcept for HeapStaticConfig {
    fn name(&self) -> &'static str {
        "HeapAdapter"
    }

    fn vendor(&self) -> &'static str {
        "Qorix GmbH"
    }

    fn version(&self) -> Version {
        Version::new(0, 1, 0)
    }
}

impl StaticConfigConcept for DynamicStaticConfig {
    fn name(&self) -> &'static str {
        "DynamicAdapter"
    }

    fn vendor(&self) -> &'static str {
        "Qorix GmbH"
    }

    fn version(&self) -> Version {
        Version::new(0, 1, 0)
    }
}

impl AdapterConcept for Local {
    type StaticConfig = LocalStaticConfig;

    fn static_config(&self) -> LocalStaticConfig {
        LocalStaticConfig {}
    }
}

impl AdapterConcept for HeapAdapter {
    type StaticConfig = HeapStaticConfig;

    fn static_config(&self) -> HeapStaticConfig {
        HeapStaticConfig {}
    }
}

impl AdapterConcept for Dynamic {
    type StaticConfig = DynamicStaticConfig;

    fn static_config(&self) -> DynamicStaticConfig {
        DynamicStaticConfig {}
    }
}

impl IntoDynamic for Local {
    fn into_dynamic(self) -> Dynamic {
        <Dynamic as DynamicNew<Local>>::new(self)
    }
}

impl IntoDynamic for HeapAdapter {
    fn into_dynamic(self) -> Dynamic {
        <Dynamic as DynamicNew<HeapAdapter>>::new(self)
    }
}

} // verus!
