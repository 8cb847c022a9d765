//! The heap topic: typed publish/subscribe over the bounded sample
//! queue, with heap-backed publish buffers.

use vstd::prelude::*;
use crate::adapter::localheap::buffer::HeapBuffer;
use crate::base::{ComError, ComResult, QueuePolicy};
use crate::queue::{
    spec_publish_accepted, spec_publish_evicts, spec_publish_items, spec_publish_result,
    SampleQueue,
};

verus! {

/// A loaned publish buffer holding one initialized payload, ready to
/// publish into its topic.
#[derive(Debug)]
pub struct HeapPublishBuffer<T> {
    value: T,
}

impl<T> HeapPublishBuffer<T> {
    /// The payload held by this buffer.
    pub closed spec fn spec_value(&self) -> T {
        self.value
    }

    /// Create a publish buffer holding `value`.
    pub fn new(value: T) -> (r: HeapPublishBuffer<T>)
        ensures
            r.spec_value() == value,
    {
        HeapPublishBuffer { value }
    }

    /// Read the payload.
    pub fn value(&self) -> (r: &T)
        ensures
            r == self.spec_value(),
    {
        &self.value
    }

    /// Replace the payload in place; the buffer stays loaned.
    pub fn write(&mut self, value: T)
        ensures
            final(self).spec_value() == value,
    {
        self.value = value;
    }

    /// Publish the buffer into the topic's queue, consuming the buffer.
    ///
    /// The topic's overflow policy decides what happens at capacity:
    /// rejection with `QueueFull`, eviction of the oldest payload, or a
    /// silent drop of this payload.
    pub fn publish(self, topic: &mut HeapTopic<T>) -> (r: ComResult<()>)
        requires
            old(topic).inv(),
            old(topic).spec_published().len() < u64::MAX,
        ensures
            final(topic).inv(),
            old(topic).same_config(final(topic)),
            final(topic).spec_delivered() == old(topic).spec_delivered(),
            r == spec_publish_result(
                old(topic).spec_items().len() as int,
                old(topic).spec_max_queue_depth(),
                old(topic).spec_queue_policy(),
            ),
            final(topic).spec_items() == spec_publish_items(
                old(topic).spec_items(),
                old(topic).spec_max_queue_depth(),
                old(topic).spec_queue_policy(),
                self.spec_value(),
            ),
            final(topic).spec_published() == if spec_publish_accepted(
                old(topic).spec_items().len() as int,
                old(topic).spec_max_queue_depth(),
                old(topic).spec_queue_policy(),
            ) {
                old(topic).spec_published().push(self.spec_value())
            } else {
                old(topic).spec_published()
            },
            final(topic).spec_evicted() == old(topic).spec_evicted() + if spec_publish_evicts(
                old(topic).spec_items().len() as int,
                old(topic).spec_max_queue_depth(),
                old(topic).spec_queue_policy(),
            ) {
                1int
            } else {
                0int
            },
    {
        topic.queue.publish(self.value)
    }
}

/// A loaned publish buffer whose payload is not yet written.
#[derive(Debug)]
pub struct HeapPublishBufferMaybeUninit<T> {
    marker: core::marker::PhantomData<T>,
}

impl<T> HeapPublishBufferMaybeUninit<T> {
    /// Reserve a publish buffer.
    pub fn new() -> (r: HeapPublishBufferMaybeUninit<T>) {
        HeapPublishBufferMaybeUninit { marker: core::marker::PhantomData }
    }

    /// Write a payload into the buffer and mark it initialized.
    pub fn write(self, value: T) -> (r: HeapPublishBuffer<T>)
        ensures
            r.spec_value() == value,
    {
        HeapPublishBuffer::new(value)
    }
}

/// A publisher handle of a heap topic.
#[derive(Debug)]
pub struct HeapPublisher {}

/// A subscriber handle of a heap topic.
#[derive(Debug)]
pub struct HeapSubscriber {}

/// The heap topic: a bounded FIFO of typed payloads with publisher and
/// subscriber ports.
pub struct HeapTopic<T> {
    queue: SampleQueue<T>,
}

impl<T> HeapTopic<T> {
    /// The live queue contents, front first.
    pub closed spec fn spec_items(&self) -> Seq<T> {
        self.queue.spec_items()
    }

    /// The configured capacity bound.
    pub closed spec fn spec_max_queue_depth(&self) -> int {
        self.queue.spec_max_queue_depth()
    }

    /// The configured overflow policy.
    pub closed spec fn spec_queue_policy(&self) -> QueuePolicy {
        self.queue.spec_queue_policy()
    }

    /// The configured bound on publishers.
    pub closed spec fn spec_max_fan_in(&self) -> int {
        self.queue.spec_max_fan_in()
    }

    /// The configured bound on subscribers.
    pub closed spec fn spec_max_fan_out(&self) -> int {
        self.queue.spec_max_fan_out()
    }

    /// The number of publisher handles minted so far.
    pub closed spec fn spec_publishers(&self) -> int {
        self.queue.spec_publishers()
    }

    /// The number of subscriber handles minted so far.
    pub closed spec fn spec_subscribers(&self) -> int {
        self.queue.spec_subscribers()
    }

    /// Every payload accepted by a publish, in publish order.
    pub closed spec fn spec_published(&self) -> Seq<T> {
        self.queue.spec_published()
    }

    /// Every payload handed to a subscriber, in delivery order.
    pub closed spec fn spec_delivered(&self) -> Seq<T> {
        self.queue.spec_delivered()
    }

    /// The number of payloads lost to the overflow policy.
    pub closed spec fn spec_evicted(&self) -> int {
        self.queue.spec_evicted()
    }

    /// The topic invariant: its queue's invariant.
    pub closed spec fn inv(&self) -> bool {
        self.queue.inv()
    }

    /// The configuration part of the state.
    pub open spec fn same_config(&self, other: &Self) -> bool {
        &&& self.spec_max_queue_depth() == other.spec_max_queue_depth()
        &&& self.spec_queue_policy() == other.spec_queue_policy()
        &&& self.spec_max_fan_in() == other.spec_max_fan_in()
        &&& self.spec_max_fan_out() == other.spec_max_fan_out()
    }

    /// Loan a publish buffer with the payload already written.
    pub fn loan_with(&self, value: T) -> (r: ComResult<HeapPublishBuffer<T>>)
        ensures
            r matches Ok(b) && b.spec_value() == value,
    {
        Ok(HeapPublishBuffer::new(value))
    }

    /// Loan an uninitialized publish buffer.
    pub fn loan_uninit(&self) -> (r: ComResult<HeapPublishBufferMaybeUninit<T>>)
        ensures
            r matches Ok(_),
    {
        Ok(HeapPublishBufferMaybeUninit::new())
    }

    /// Turn a previously received buffer back into a publish buffer,
    /// reusing its payload.
    pub fn reuse(&self, buffer: HeapBuffer<T>) -> (r: ComResult<HeapPublishBuffer<T>>)
        ensures
            r matches Ok(b) && b.spec_value() == buffer.spec_value(),
    {
        Ok(HeapPublishBuffer::new(buffer.into_inner()))
    }

    /// Check for new data and consume it if present.
    ///
    /// Returns the oldest payload exactly when the queue is non-empty;
    /// an empty queue yields `Ok(None)` and is left untouched.
    pub fn try_receive(&mut self) -> (r: ComResult<Option<HeapBuffer<T>>>)
        requires
            old(self).inv(),
        ensures
            final(self).inv(),
            old(self).same_config(final(self)),
            final(self).spec_published() == old(self).spec_published(),
            final(self).spec_evicted() == old(self).spec_evicted(),
            old(self).spec_items().len() == 0 ==> {
                &&& r matches Ok(o)
                &&& o matches None
                &&& final(self).spec_items() == old(self).spec_items()
                &&& final(self).spec_delivered() == old(self).spec_delivered()
            },
            old(self).spec_items().len() > 0 ==> {
                &&& r matches Ok(o)
                &&& o matches Some(b)
                &&& b.spec_value() == old(self).spec_items()[0]
                &&& final(self).spec_items() == old(self).spec_items().drop_first()
                &&& final(self).spec_delivered() == old(self).spec_delivered().push(
                    old(self).spec_items()[0],
                )
            },
    {
        match self.queue.take_front() {
            Some(value) => Ok(Some(HeapBuffer::new(value))),
            None => Ok(None),
        }
    }

    /// Wait for new data to arrive and consume it.
    ///
    /// Blocking semantics demand a payload be queued when the call is
    /// made: the sole owner of the topic could otherwise wait forever.
    pub fn receive(&mut self) -> (r: ComResult<HeapBuffer<T>>)
        requires
            old(self).inv(),
            old(self).spec_items().len() > 0,
        ensures
            final(self).inv(),
            old(self).same_config(final(self)),
            final(self).spec_published() == old(self).spec_published(),
            final(self).spec_evicted() == old(self).spec_evicted(),
            r matches Ok(b) && b.spec_value() == old(self).spec_items()[0],
            final(self).spec_items() == old(self).spec_items().drop_first(),
            final(self).spec_delivered() == old(self).spec_delivered().push(
                old(self).spec_items()[0],
            ),
    {
        match self.try_receive() {
            Ok(Some(b)) => Ok(b),
            Ok(None) => Err(ComError::QueueEmpty),
            Err(e) => Err(e),
        }
    }

    /// Wait for new data to arrive, giving up with `Timeout` after the
    /// deadline.  A timed-out receive leaves the queue and every payload
    /// exactly as they were.
    pub fn receive_timeout(&mut self, timeout_ms: u64) -> (r: ComResult<HeapBuffer<T>>)
        requires
            old(self).inv(),
        ensures
            final(self).inv(),
            old(self).same_config(final(self)),
            final(self).spec_published() == old(self).spec_published(),
            final(self).spec_evicted() == old(self).spec_evicted(),
            old(self).spec_items().len() == 0 ==> {
                &&& r matches Err(e) && e == ComError::Timeout
                &&& final(self).spec_items() == old(self).spec_items()
                &&& final(self).spec_delivered() == old(self).spec_delivered()
            },
            old(self).spec_items().len() > 0 ==> {
                &&& r matches Ok(b)
                &&& b.spec_value() == old(self).spec_items()[0]
                &&& final(self).spec_items() == old(self).spec_items().drop_first()
                &&& final(self).spec_delivered() == old(self).spec_delivered().push(
                    old(self).spec_items()[0],
                )
            },
    {
        match self.try_receive() {
            Ok(Some(b)) => Ok(b),
            Ok(None) => Err(ComError::Timeout),
            Err(e) => Err(e),
        }
    }

    /// Get a publisher for this topic.
    ///
    /// Succeeds exactly while the fan-in bound is not yet reached; the
    /// excess request is rejected with `FanError`.
    pub fn publisher(&mut self) -> (r: ComResult<HeapPublisher>)
        requires
            old(self).inv(),
        ensures
            final(self).inv(),
            old(self).same_config(final(self)),
            final(self).spec_items() == old(self).spec_items(),
            final(self).spec_published() == old(self).spec_published(),
            final(self).spec_delivered() == old(self).spec_delivered(),
            final(self).spec_evicted() == old(self).spec_evicted(),
            (r is Ok) <==> old(self).spec_publishers() < old(self).spec_max_fan_in(),
            r matches Err(e) ==> e == ComError::FanError,
            r matches Ok(_) ==> final(self).spec_publishers() == old(self).spec_publishers() + 1,
            r matches Err(_) ==> final(self).spec_publishers() == old(self).spec_publishers(),
    {
        match self.queue.add_publisher() {
            Ok(()) => Ok(HeapPublisher {}),
            Err(e) => Err(e),
        }
    }

    /// Get a subscriber for this topic.
    ///
    /// Succeeds exactly while the fan-out bound is not yet reached; the
    /// excess request is rejected with `FanError`.
    pub fn subscriber(&mut self) -> (r: ComResult<HeapSubscriber>)
        requires
            old(self).inv(),
        ensures
            final(self).inv(),
            old(self).same_config(final(self)),
            final(self).spec_items() == old(self).spec_items(),
            final(self).spec_published() == old(self).spec_published(),
            final(self).spec_delivered() == old(self).spec_delivered(),
            final(self).spec_evicted() == old(self).spec_evicted(),
            (r is Ok) <==> old(self).spec_subscribers() < old(self).spec_max_fan_out(),
            r matches Err(e) ==> e == ComError::FanError,
            r matches Ok(_) ==> final(self).spec_subscribers() == old(self).spec_subscribers()
                + 1,
            r matches Err(_) ==> final(self).spec_subscribers() == old(self).spec_subscribers(),
    {
        match self.queue.add_subscriber() {
            Ok(()) => Ok(HeapSubscriber {}),
            Err(e) => Err(e),
        }
    }

    /// The current element count of the queue.
    pub fn current_depth(&self) -> (r: usize)
        ensures
            r == self.spec_items().len(),
    {
        self.queue.len()
    }

    /// How many payloads have been accepted by publishes.
    pub fn published_count(&self) -> (r: u64)
        requires
            self.inv(),
        ensures
            r == self.spec_published().len(),
    {
        self.queue.published_count()
    }

    /// How many payloads have been handed to subscribers.
    pub fn delivered_count(&self) -> (r: u64)
        requires
            self.inv(),
        ensures
            r == self.spec_delivered().len(),
    {
        self.queue.delivered_count()
    }

    /// How many payloads were lost to the overflow policy.
    pub fn evicted_count(&self) -> (r: u64)
        ensures
            r == self.spec_evicted(),
    {
        self.queue.evicted_count()
    }
}

/// The builder for a heap topic.
#[derive(Debug)]
pub struct HeapTopicBuilder<T> {
    marker: core::marker::PhantomData<T>,
    max_queue_depth: usize,
    queue_policy: QueuePolicy,
    max_fan_in: usize,
    max_fan_out: usize,
}

impl<T> HeapTopicBuilder<T> {
    /// The configured capacity bound.
    pub closed spec fn spec_max_queue_depth(&self) -> int {
        self.max_queue_depth as int
    }

    /// The configured overflow policy.
    pub closed spec fn spec_queue_policy(&self) -> QueuePolicy {
        self.queue_policy
    }

    /// The configured bound on publishers.
    pub closed spec fn spec_max_fan_in(&self) -> int {
        self.max_fan_in as int
    }

    /// The configured bound on subscribers.
    pub closed spec fn spec_max_fan_out(&self) -> int {
        self.max_fan_out as int
    }

    /// Create a builder with the default configuration: a single-slot
    /// queue that rejects on overflow, one publisher, one subscriber.
    pub fn new() -> (r: HeapTopicBuilder<T>)
        ensures
            r.spec_max_queue_depth() == 1,
            r.spec_queue_policy() == QueuePolicy::ErrorOnFull,
            r.spec_max_fan_in() == 1,
            r.spec_max_fan_out() == 1,
    {
        HeapTopicBuilder {
            marker: core::marker::PhantomData,
            max_queue_depth: 1,
            queue_policy: QueuePolicy::ErrorOnFull,
            max_fan_in: 1,
            max_fan_out: 1,
        }
    }

    /// Set the queue depth of the topic.
    pub fn with_queue_depth(self, queue_depth: usize) -> (r: HeapTopicBuilder<T>)
        ensures
            r.spec_max_queue_depth() == queue_depth,
            r.spec_queue_policy() == self.spec_queue_policy(),
            r.spec_max_fan_in() == self.spec_max_fan_in(),
            r.spec_max_fan_out() == self.spec_max_fan_out(),
    {
        HeapTopicBuilder { max_queue_depth: queue_depth, ..self }
    }

    /// Set the overflow policy of the topic.
    pub fn with_queue_policy(self, queue_policy: QueuePolicy) -> (r: HeapTopicBuilder<T>)
        ensures
            r.spec_queue_policy() == queue_policy,
            r.spec_max_queue_depth() == self.spec_max_queue_depth(),
            r.spec_max_fan_in() == self.spec_max_fan_in(),
            r.spec_max_fan_out() == self.spec_max_fan_out(),
    {
        HeapTopicBuilder { queue_policy, ..self }
    }

    /// Set the fan-in bound, limiting the number of publishers.
    pub fn with_max_fan_in(self, fan_in: usize) -> (r: HeapTopicBuilder<T>)
        ensures
            r.spec_max_fan_in() == fan_in,
            r.spec_max_queue_depth() == self.spec_max_queue_depth(),
            r.spec_queue_policy() == self.spec_queue_policy(),
            r.spec_max_fan_out() == self.spec_max_fan_out(),
    {
        HeapTopicBuilder { max_fan_in: fan_in, ..self }
    }

    /// Set the fan-out bound, limiting the number of subscribers.
    pub fn with_max_fan_out(self, fan_out: usize) -> (r: HeapTopicBuilder<T>)
        ensures
            r.spec_max_fan_out() == fan_out,
            r.spec_max_queue_depth() == self.spec_max_queue_depth(),
            r.spec_queue_policy() == self.spec_queue_policy(),
            r.spec_max_fan_in() == self.spec_max_fan_in(),
    {
        HeapTopicBuilder { max_fan_out: fan_out, ..self }
    }

    /// Build the topic.
    ///
    /// The configuration must be valid: a positive queue depth and
    /// positive fan bounds.  The topic starts empty with no handles
    /// minted.
    pub fn build(self) -> (r: ComResult<HeapTopic<T>>)
        requires
            self.spec_max_queue_depth() >= 1,
            self.spec_max_fan_in() >= 1,
            self.spec_max_fan_out() >= 1,
        ensures
            r matches Ok(t) && {
                &&& t.inv()
                &&& t.spec_items() == Seq::<T>::empty()
                &&& t.spec_published() == Seq::<T>::empty()
                &&& t.spec_delivered() == Seq::<T>::empty()
                &&& t.spec_evicted() == 0
                &&& t.spec_publishers() == 0
                &&& t.spec_subscribers() == 0
                &&& t.spec_max_queue_depth() == self.spec_max_queue_depth()
                &&& t.spec_queue_policy() == self.spec_queue_policy()
                &&& t.spec_max_fan_in() == self.spec_max_fan_in()
                &&& t.spec_max_fan_out() == self.spec_max_fan_out()
            },
    {
        Ok(
            HeapTopic {
                queue: SampleQueue::new(
                    self.max_queue_depth,
                    self.queue_policy,
                    self.max_fan_in,
                    self.max_fan_out,
                ),
            },
        )
    }
}

/// Law: retained samples keep their publish order.  What this topic has
/// delivered, followed by what is still queued, is — in order — a
/// subsequence of everything published on it.
pub proof fn lemma_topic_retained_order<T>(t: HeapTopic<T>)
    requires
        t.inv(),
    ensures
        crate::queue::spec_is_subsequence(
            t.spec_delivered() + t.spec_items(),
            t.spec_published(),
        ),
{
    crate::queue::lemma_retained_order(t.queue);
}

} // verus!
