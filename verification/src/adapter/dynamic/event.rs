//! The dynamic event: typed publish/subscribe dispatching to the
//! selected transport's topic.

use vstd::prelude::*;
use crate::adapter::local::topic::{LocalTopic, LocalTopicBuilder};
use crate::adapter::localheap::topic::{HeapTopic, HeapTopicBuilder};
use crate::base::{ComError, ComResult, QueuePolicy};
use crate::queue::{
    spec_publish_accepted, spec_publish_evicts, spec_publish_items, spec_publish_result,
};

verus! {

/// An immutable sample received from a dynamic event.
#[derive(Debug)]
pub struct DynamicSample<T> {
    value: T,
}

impl<T> DynamicSample<T> {
    /// The payload held by this sample.
    pub closed spec fn spec_value(&self) -> T {
        self.value
    }

    /// Create a sample holding `value`.
    pub fn new(value: T) -> (r: DynamicSample<T>)
        ensures
            r.spec_value() == value,
    {
        DynamicSample { value }
    }

    /// Read the payload.
    pub fn value(&self) -> (r: &T)
        ensures
            r == self.spec_value(),
    {
        &self.value
    }

    /// Move the payload out of the sample.
    pub fn into_inner(self) -> (r: T)
        ensures
            r == self.spec_value(),
    {
        self.value
    }
}

/// A loaned mutable sample of a dynamic event.
#[derive(Debug)]
pub struct DynamicSampleMut<T> {
    value: T,
}

impl<T> DynamicSampleMut<T> {
    /// The payload held by this sample.
    pub closed spec fn spec_value(&self) -> T {
        self.value
    }

    /// Create a sample holding `value`.
    pub fn new(value: T) -> (r: DynamicSampleMut<T>)
        ensures
            r.spec_value() == value,
    {
        DynamicSampleMut { value }
    }

    /// Read the payload.
    pub fn value(&self) -> (r: &T)
        ensures
            r == self.spec_value(),
    {
        &self.value
    }

    /// Replace the payload in place; the sample stays loaned.
    pub fn write(&mut self, value: T)
        ensures
            final(self).spec_value() == value,
    {
        self.value = value;
    }

    /// Transition the sample from mutable to immutable without copying.
    pub fn into_sample(self) -> (r: DynamicSample<T>)
        ensures
            r.spec_value() == self.spec_value(),
    {
        DynamicSample::new(self.value)
    }

    /// Publish the sample into the event's queue, consuming the sample.
    ///
    /// The event's overflow policy decides what happens at capacity:
    /// rejection with `QueueFull`, eviction of the oldest sample, or a
    /// silent drop of this sample.
    pub fn publish(self, event: &mut DynamicEvent<T>) -> (r: ComResult<()>)
        requires
            old(event).inv(),
            old(event).spec_published().len() < u64::MAX,
        ensures
            final(event).inv(),
            final(event).spec_max_queue_depth() == old(event).spec_max_queue_depth(),
            final(event).spec_queue_policy() == old(event).spec_queue_policy(),
            final(event).spec_delivered() == old(event).spec_delivered(),
            r == spec_publish_result(
                old(event).spec_items().len() as int,
                old(event).spec_max_queue_depth(),
                old(event).spec_queue_policy(),
            ),
            final(event).spec_items() == spec_publish_items(
                old(event).spec_items(),
                old(event).spec_max_queue_depth(),
                old(event).spec_queue_policy(),
                self.spec_value(),
            ),
            final(event).spec_published() == if spec_publish_accepted(
                old(event).spec_items().len() as int,
                old(event).spec_max_queue_depth(),
                old(event).spec_queue_policy(),
            ) {
                old(event).spec_published().push(self.spec_value())
            } else {
                old(event).spec_published()
            },
            final(event).spec_evicted() == old(event).spec_evicted() + if spec_publish_evicts(
                old(event).spec_items().len() as int,
                old(event).spec_max_queue_depth(),
                old(event).spec_queue_policy(),
            ) {
                1int
            } else {
                0int
            },
    {
        match &mut event.inner {
            EventSelector::Local(topic) => {
                crate::adapter::local::topic::LocalSample::new(self.value).publish(topic)
            },
            EventSelector::Heap(topic) => {
                crate::adapter::localheap::topic::HeapPublishBuffer::new(self.value).publish(
                    topic,
                )
            },
        }
    }
}

/// A loaned sample of a dynamic event whose payload is not yet written.
#[derive(Debug)]
pub struct DynamicSampleMaybeUninit<T> {
    marker: core::marker::PhantomData<T>,
}

impl<T> DynamicSampleMaybeUninit<T> {
    /// Reserve a sample.
    pub fn new() -> (r: DynamicSampleMaybeUninit<T>) {
        DynamicSampleMaybeUninit { marker: core::marker::PhantomData }
    }

    /// Write a payload into the sample and mark it initialized.
    pub fn write(self, value: T) -> (r: DynamicSampleMut<T>)
        ensures
            r.spec_value() == value,
    {
        DynamicSampleMut::new(value)
    }
}

/// A publisher handle of a dynamic event.
#[derive(Debug)]
pub struct DynamicPublisher {}

impl DynamicPublisher {
    /// Loan an uninitialized sample for new data to be published.
    pub fn loan_uninit<T>(&self) -> (r: ComResult<DynamicSampleMaybeUninit<T>>)
        ensures
            r matches Ok(_),
    {
        Ok(DynamicSampleMaybeUninit::new())
    }

    /// Loan a sample with the payload already written.
    pub fn loan<T>(&self, value: T) -> (r: ComResult<DynamicSampleMut<T>>)
        ensures
            r matches Ok(s) && s.spec_value() == value,
    {
        Ok(DynamicSampleMut::new(value))
    }

    /// Publish a payload in one step: loan, write and publish.
    pub fn publish<T>(&self, event: &mut DynamicEvent<T>, value: T) -> (r: ComResult<()>)
        requires
            old(event).inv(),
            old(event).spec_published().len() < u64::MAX,
        ensures
            final(event).inv(),
            final(event).spec_max_queue_depth() == old(event).spec_max_queue_depth(),
            final(event).spec_queue_policy() == old(event).spec_queue_policy(),
            final(event).spec_delivered() == old(event).spec_delivered(),
            r == spec_publish_result(
                old(event).spec_items().len() as int,
                old(event).spec_max_queue_depth(),
                old(event).spec_queue_policy(),
            ),
            final(event).spec_items() == spec_publish_items(
                old(event).spec_items(),
                old(event).spec_max_queue_depth(),
                old(event).spec_queue_policy(),
                value,
            ),
    {
        DynamicSampleMut::new(value).publish(event)
    }
}

/// A subscriber handle of a dynamic event.
#[derive(Debug)]
pub struct DynamicSubscriber {}

impl DynamicSubscriber {
    /// Check for new data and consume it if present.
    ///
    /// Returns the oldest sample exactly when the queue is non-empty; an
    /// empty queue yields `Ok(None)` and is left untouched.
    pub fn try_receive<T>(&self, event: &mut DynamicEvent<T>) -> (r: ComResult<
        Option<DynamicSample<T>>,
    >)
        requires
            old(event).inv(),
        ensures
            final(event).inv(),
            final(event).spec_max_queue_depth() == old(event).spec_max_queue_depth(),
            final(event).spec_queue_policy() == old(event).spec_queue_policy(),
            final(event).spec_published() == old(event).spec_published(),
            final(event).spec_evicted() == old(event).spec_evicted(),
            old(event).spec_items().len() == 0 ==> {
                &&& r matches Ok(o)
                &&& o matches None
                &&& final(event).spec_items() == old(event).spec_items()
                &&& final(event).spec_delivered() == old(event).spec_delivered()
            },
            old(event).spec_items().len() > 0 ==> {
                &&& r matches Ok(o)
                &&& o matches Some(s)
                &&& s.spec_value() == old(event).spec_items()[0]
                &&& final(event).spec_items() == old(event).spec_items().drop_first()
                &&& final(event).spec_delivered() == old(event).spec_delivered().push(
                    old(event).spec_items()[0],
                )
            },
    {
        match &mut event.inner {
            EventSelector::Local(topic) => {
                let sub = crate::adapter::local::topic::LocalSubscriber {};
                match sub.try_receive(topic) {
                    Ok(Some(s)) => Ok(Some(DynamicSample::new(s.into_inner()))),
                    Ok(None) => Ok(None),
                    Err(e) => Err(e),
                }
            },
            EventSelector::Heap(topic) => match topic.try_receive() {
                Ok(Some(b)) => Ok(Some(DynamicSample::new(b.into_inner()))),
                Ok(None) => Ok(None),
                Err(e) => Err(e),
            },
        }
    }

    /// Wait for new data to arrive and consume it.
    ///
    /// Blocking semantics demand a sample be queued when the call is
    /// made: the sole owner of the event could otherwise wait forever.
    pub fn receive<T>(&self, event: &mut DynamicEvent<T>) -> (r: ComResult<DynamicSample<T>>)
        requires
            old(event).inv(),
            old(event).spec_items().len() > 0,
        ensures
            final(event).inv(),
            final(event).spec_max_queue_depth() == old(event).spec_max_queue_depth(),
            final(event).spec_queue_policy() == old(event).spec_queue_policy(),
            final(event).spec_published() == old(event).spec_published(),
            final(event).spec_evicted() == old(event).spec_evicted(),
            r matches Ok(s) && s.spec_value() == old(event).spec_items()[0],
            final(event).spec_items() == old(event).spec_items().drop_first(),
            final(event).spec_delivered() == old(event).spec_delivered().push(
                old(event).spec_items()[0],
            ),
    {
        match self.try_receive(event) {
            Ok(Some(s)) => Ok(s),
            Ok(None) => Err(ComError::QueueEmpty),
            Err(e) => Err(e),
        }
    }

    /// Wait for new data to arrive, giving up with `Timeout` after the
    /// deadline.  A timed-out receive leaves the queue and every sample
    /// exactly as they were.
    pub fn receive_timeout<T>(&self, event: &mut DynamicEvent<T>, timeout_ms: u64) -> (r:
        ComResult<DynamicSample<T>>)
        requires
            old(event).inv(),
        ensures
            final(event).inv(),
            final(event).spec_max_queue_depth() == old(event).spec_max_queue_depth(),
            final(event).spec_queue_policy() == old(event).spec_queue_policy(),
            final(event).spec_published() == old(event).spec_published(),
            final(event).spec_evicted() == old(event).spec_evicted(),
            old(event).spec_items().len() == 0 ==> {
                &&& r matches Err(e) && e == ComError::Timeout
                &&& final(event).spec_items() == old(event).spec_items()
                &&& final(event).spec_delivered() == old(event).spec_delivered()
            },
            old(event).spec_items().len() > 0 ==> {
                &&& r matches Ok(s)
                &&& s.spec_value() == old(event).spec_items()[0]
                &&& final(event).spec_items() == old(event).spec_items().drop_first()
                &&& final(event).spec_delivered() == old(event).spec_delivered().push(
                    old(event).spec_items()[0],
                )
            },
    {
        match self.try_receive(event) {
            Ok(Some(s)) => Ok(s),
            Ok(None) => Err(ComError::Timeout),
            Err(e) => Err(e),
        }
    }
}

/// The transport-specific topic a dynamic event dispatches to.
enum EventSelector<T> {
    Local(LocalTopic<T>),
    Heap(HeapTopic<T>),
}

/// A typed event bound at construction time to one of the compiled-in
/// transports.
pub struct DynamicEvent<T> {
    inner: EventSelector<T>,
}

impl<T> DynamicEvent<T> {
    /// The live queue contents, front first.
    pub closed spec fn spec_items(&self) -> Seq<T> {
        match self.inner {
            EventSelector::Local(t) => t.spec_items(),
            EventSelector::Heap(t) => t.spec_items(),
        }
    }

    /// The configured capacity bound.
    pub closed spec fn spec_max_queue_depth(&self) -> int {
        match self.inner {
            EventSelector::Local(t) => t.spec_max_queue_depth(),
            EventSelector::Heap(t) => t.spec_max_queue_depth(),
        }
    }

    /// The configured overflow policy.
    pub closed spec fn spec_queue_policy(&self) -> QueuePolicy {
        match self.inner {
            EventSelector::Local(t) => t.spec_queue_policy(),
            EventSelector::Heap(t) => t.spec_queue_policy(),
        }
    }

    /// The configured bound on publishers.
    pub closed spec fn spec_max_fan_in(&self) -> int {
        match self.inner {
            EventSelector::Local(t) => t.spec_max_fan_in(),
            EventSelector::Heap(t) => t.spec_max_fan_in(),
        }
    }

    /// The configured bound on subscribers.
    pub closed spec fn spec_max_fan_out(&self) -> int {
        match self.inner {
            EventSelector::Local(t) => t.spec_max_fan_out(),
            EventSelector::Heap(t) => t.spec_max_fan_out(),
        }
    }

    /// The number of publisher handles minted so far.
    pub closed spec fn spec_publishers(&self) -> int {
        match self.inner {
            EventSelector::Local(t) => t.spec_publishers(),
            EventSelector::Heap(t) => t.spec_publishers(),
        }
    }

    /// The number of subscriber handles minted so far.
    pub closed spec fn spec_subscribers(&self) -> int {
        match self.inner {
            EventSelector::Local(t) => t.spec_subscribers(),
            EventSelector::Heap(t) => t.spec_subscribers(),
        }
    }

    /// Every payload accepted by a publish, in publish order.
    pub closed spec fn spec_published(&self) -> Seq<T> {
        match self.inner {
            EventSelector::Local(t) => t.spec_published(),
            EventSelector::Heap(t) => t.spec_published(),
        }
    }

    /// Every payload handed to a subscriber, in delivery order.
    pub closed spec fn spec_delivered(&self) -> Seq<T> {
        match self.inner {
            EventSelector::Local(t) => t.spec_delivered(),
            EventSelector::Heap(t) => t.spec_delivered(),
        }
    }

    /// The number of payloads lost to the overflow policy.
    pub closed spec fn spec_evicted(&self) -> int {
        match self.inner {
            EventSelector::Local(t) => t.spec_evicted(),
            EventSelector::Heap(t) => t.spec_evicted(),
        }
    }

    /// The event invariant: the selected topic's invariant.
    pub closed spec fn inv(&self) -> bool {
        match self.inner {
            EventSelector::Local(t) => t.inv(),
            EventSelector::Heap(t) => t.inv(),
        }
    }

    /// Get a publisher for this event.
    ///
    /// Succeeds exactly while the fan-in bound is not yet reached; the
    /// excess request is rejected with `FanError`.
    pub fn publisher(&mut self) -> (r: ComResult<DynamicPublisher>)
        requires
            old(self).inv(),
        ensures
            final(self).inv(),
            final(self).spec_max_queue_depth() == old(self).spec_max_queue_depth(),
            final(self).spec_queue_policy() == old(self).spec_queue_policy(),
            final(self).spec_max_fan_in() == old(self).spec_max_fan_in(),
            final(self).spec_max_fan_out() == old(self).spec_max_fan_out(),
            final(self).spec_items() == old(self).spec_items(),
            final(self).spec_published() == old(self).spec_published(),
            final(self).spec_delivered() == old(self).spec_delivered(),
            final(self).spec_evicted() == old(self).spec_evicted(),
            (r is Ok) <==> old(self).spec_publishers() < old(self).spec_max_fan_in(),
            r matches Err(e) ==> e == ComError::FanError,
            r matches Ok(_) ==> final(self).spec_publishers() == old(self).spec_publishers() + 1,
            r matches Err(_) ==> final(self).spec_publishers() == old(self).spec_publishers(),
    {
        match &mut self.inner {
            EventSelector::Local(topic) => match topic.publisher() {
                Ok(_) => Ok(DynamicPublisher {}),
                Err(e) => Err(e),
            },
            EventSelector::Heap(topic) => match topic.publisher() {
                Ok(_) => Ok(DynamicPublisher {}),
                Err(e) => Err(e),
            },
        }
    }

    /// Get a subscriber for this event.
    ///
    /// Succeeds exactly while the fan-out bound is not yet reached; the
    /// excess request is rejected with `FanError`.
    pub fn subscriber(&mut self) -> (r: ComResult<DynamicSubscriber>)
        requires
            old(self).inv(),
        ensures
            final(self).inv(),
            final(self).spec_max_queue_depth() == old(self).spec_max_queue_depth(),
            final(self).spec_queue_policy() == old(self).spec_queue_policy(),
            final(self).spec_max_fan_in() == old(self).spec_max_fan_in(),
            final(self).spec_max_fan_out() == old(self).spec_max_fan_out(),
            final(self).spec_items() == old(self).spec_items(),
            final(self).spec_published() == old(self).spec_published(),
            final(self).spec_delivered() == old(self).spec_delivered(),
            final(self).spec_evicted() == old(self).spec_evicted(),
            (r is Ok) <==> old(self).spec_subscribers() < old(self).spec_max_fan_out(),
            r matches Err(e) ==> e == ComError::FanError,
            r matches Ok(_) ==> final(self).spec_subscribers() == old(self).spec_subscribers()
                + 1,
            r matches Err(_) ==> final(self).spec_subscribers() == old(self).spec_subscribers(),
    {
        match &mut self.inner {
            EventSelector::Local(topic) => match topic.subscriber() {
                Ok(_) => Ok(DynamicSubscriber {}),
                Err(e) => Err(e),
            },
            EventSelector::Heap(topic) => match topic.subscriber() {
                Ok(_) => Ok(DynamicSubscriber {}),
                Err(e) => Err(e),
            },
        }
    }

    /// The current element count of the queue.
    pub fn current_depth(&self) -> (r: usize)
        ensures
            r == self.spec_items().len(),
    {
        match &self.inner {
            EventSelector::Local(topic) => topic.current_depth(),
            EventSelector::Heap(topic) => topic.current_depth(),
        }
    }

    /// How many payloads were lost to the overflow policy.
    pub fn evicted_count(&self) -> (r: u64)
        ensures
            r == self.spec_evicted(),
    {
        match &self.inner {
            EventSelector::Local(topic) => topic.evicted_count(),
            EventSelector::Heap(topic) => topic.evicted_count(),
        }
    }
}

/// The transport-specific builder a dynamic event builder dispatches
/// to.
enum EventBuilderSelector<T> {
    Local(LocalTopicBuilder<T>),
    Heap(HeapTopicBuilder<T>),
}

/// The builder for a dynamic event.
pub struct DynamicEventBuilder<T> {
    inner: EventBuilderSelector<T>,
}

impl<T> DynamicEventBuilder<T> {
    /// The configured capacity bound.
    pub closed spec fn spec_max_queue_depth(&self) -> int {
        match self.inner {
            EventBuilderSelector::Local(b) => b.spec_max_queue_depth(),
            EventBuilderSelector::Heap(b) => b.spec_max_queue_depth(),
        }
    }

    /// The configured overflow policy.
    pub closed spec fn spec_queue_policy(&self) -> QueuePolicy {
        match self.inner {
            EventBuilderSelector::Local(b) => b.spec_queue_policy(),
            EventBuilderSelector::Heap(b) => b.spec_queue_policy(),
        }
    }

    /// The configured bound on publishers.
    pub closed spec fn spec_max_fan_in(&self) -> int {
        match self.inner {
            EventBuilderSelector::Local(b) => b.spec_max_fan_in(),
            EventBuilderSelector::Heap(b) => b.spec_max_fan_in(),
        }
    }

    /// The configured bound on subscribers.
    pub closed spec fn spec_max_fan_out(&self) -> int {
        match self.inner {
            EventBuilderSelector::Local(b) => b.spec_max_fan_out(),
            EventBuilderSelector::Heap(b) => b.spec_max_fan_out(),
        }
    }

    /// Wrap a local topic builder.
    pub fn from_local(builder: LocalTopicBuilder<T>) -> (r: DynamicEventBuilder<T>)
        ensures
            r.spec_max_queue_depth() == builder.spec_max_queue_depth(),
            r.spec_queue_policy() == builder.spec_queue_policy(),
            r.spec_max_fan_in() == builder.spec_max_fan_in(),
            r.spec_max_fan_out() == builder.spec_max_fan_out(),
    {
        DynamicEventBuilder { inner: EventBuilderSelector::Local(builder) }
    }

    /// Wrap a heap topic builder.
    pub fn from_heap(builder: HeapTopicBuilder<T>) -> (r: DynamicEventBuilder<T>)
        ensures
            r.spec_max_queue_depth() == builder.spec_max_queue_depth(),
            r.spec_queue_policy() == builder.spec_queue_policy(),
            r.spec_max_fan_in() == builder.spec_max_fan_in(),
            r.spec_max_fan_out() == builder.spec_max_fan_out(),
    {
        DynamicEventBuilder { inner: EventBuilderSelector::Heap(builder) }
    }

    /// Set the queue depth of the event.
    pub fn with_queue_depth(self, queue_depth: usize) -> (r: DynamicEventBuilder<T>)
        ensures
            r.spec_max_queue_depth() == queue_depth,
            r.spec_queue_policy() == self.spec_queue_policy(),
            r.spec_max_fan_in() == self.spec_max_fan_in(),
            r.spec_max_fan_out() == self.spec_max_fan_out(),
    {
        match self.inner {
            EventBuilderSelector::Local(b) => DynamicEventBuilder {
                inner: EventBuilderSelector::Local(b.with_queue_depth(queue_depth)),
            },
            EventBuilderSelector::Heap(b) => DynamicEventBuilder {
                inner: EventBuilderSelector::Heap(b.with_queue_depth(queue_depth)),
            },
        }
    }

    /// Set the overflow policy of the event.
    pub fn with_queue_policy(self, queue_policy: QueuePolicy) -> (r: DynamicEventBuilder<T>)
        ensures
            r.spec_queue_policy() == queue_policy,
            r.spec_max_queue_depth() == self.spec_max_queue_depth(),
            r.spec_max_fan_in() == self.spec_max_fan_in(),
            r.spec_max_fan_out() == self.spec_max_fan_out(),
    {
        match self.inner {
            EventBuilderSelector::Local(b) => DynamicEventBuilder {
                inner: EventBuilderSelector::Local(b.with_queue_policy(queue_policy)),
            },
            EventBuilderSelector::Heap(b) => DynamicEventBuilder {
                inner: EventBuilderSelector::Heap(b.with_queue_policy(queue_policy)),
            },
        }
    }

    /// Set the fan-in bound, limiting the number of publishers.
    pub fn with_max_fan_in(self, fan_in: usize) -> (r: DynamicEventBuilder<T>)
        ensures
            r.spec_max_fan_in() == fan_in,
            r.spec_max_queue_depth() == self.spec_max_queue_depth(),
            r.spec_queue_policy() == self.spec_queue_policy(),
            r.spec_max_fan_out() == self.spec_max_fan_out(),
    {
        match self.inner {
            EventBuilderSelector::Local(b) => DynamicEventBuilder {
                inner: EventBuilderSelector::Local(b.with_max_fan_in(fan_in)),
            },
            EventBuilderSelector::Heap(b) => DynamicEventBuilder {
                inner: EventBuilderSelector::Heap(b.with_max_fan_in(fan_in)),
            },
        }
    }

    /// Set the fan-out bound, limiting the number of subscribers.
    pub fn with_max_fan_out(self, fan_out: usize) -> (r: DynamicEventBuilder<T>)
        ensures
            r.spec_max_fan_out() == fan_out,
            r.spec_max_queue_depth() == self.spec_max_queue_depth(),
            r.spec_queue_policy() == self.spec_queue_policy(),
            r.spec_max_fan_in() == self.spec_max_fan_in(),
    {
        match self.inner {
            EventBuilderSelector::Local(b) => DynamicEventBuilder {
                inner: EventBuilderSelector::Local(b.with_max_fan_out(fan_out)),
            },
            EventBuilderSelector::Heap(b) => DynamicEventBuilder {
                inner: EventBuilderSelector::Heap(b.with_max_fan_out(fan_out)),
            },
        }
    }

    /// Build the event.
    ///
    /// The configuration must be valid: a positive queue depth and
    /// positive fan bounds.  The event starts empty with no handles
    /// minted.
    pub fn build(self) -> (r: ComResult<DynamicEvent<T>>)
        requires
            self.spec_max_queue_depth() >= 1,
            self.spec_max_fan_in() >= 1,
            self.spec_max_fan_out() >= 1,
        ensures
            r matches Ok(t) && {
                &&& t.inv()
                &&& t.spec_items() == Seq::<T>::empty()
                &&& t.spec_published() == Seq::<T>::empty()
                &&& t.spec_delivered() == Seq::<T>::empty()
                &&& t.spec_evicted() == 0
                &&& t.spec_publishers() == 0
                &&& t.spec_subscribers() == 0
                &&& t.spec_max_queue_depth() == self.spec_max_queue_depth()
                &&& t.spec_queue_policy() == self.spec_queue_policy()
                &&& t.spec_max_fan_in() == self.spec_max_fan_in()
                &&& t.spec_max_fan_out() == self.spec_max_fan_out()
            },
    {
        match self.inner {
            EventBuilderSelector::Local(b) => match b.build() {
                Ok(t) => Ok(DynamicEvent { inner: EventSelector::Local(t) }),
                Err(e) => Err(e),
            },
            EventBuilderSelector::Heap(b) => match b.build() {
                Ok(t) => Ok(DynamicEvent { inner: EventSelector::Heap(t) }),
                Err(e) => Err(e),
            },
        }
    }
}

} // verus!
