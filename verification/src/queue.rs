//! The bounded sample queue shared by every topic implementation.
//!
//! A `SampleQueue` is a FIFO of owned sample payloads bounded by
//! `max_queue_depth`.  When an element is published at capacity the
//! configured `QueuePolicy` decides whether the new element is rejected,
//! the oldest element is evicted, or the new element is silently dropped.
//! The queue also carries the fan-in/fan-out bookkeeping for publisher and
//! subscriber handles and the loss-accounting counters.
//!
//! The ghost histories `published` and `delivered` record every payload
//! accepted by a publish and every payload handed to a subscriber, in
//! order.  The queue invariant ties them to the live contents, which is
//! what the law lemmas at the end of this module state.

use vstd::prelude::*;
use std::collections::VecDeque;
use crate::base::{ComError, ComResult, QueuePolicy};

verus! {

/// The contents of the queue after publishing `v` onto `items`.
pub open spec fn spec_publish_items<T>(
    items: Seq<T>,
    depth: int,
    policy: QueuePolicy,
    v: T,
) -> Seq<T> {
    if items.len() < depth {
        items.push(v)
    } else {
        match policy {
            QueuePolicy::ErrorOnFull => items,
            QueuePolicy::OverwriteOldest => items.drop_first().push(v),
            QueuePolicy::OverwriteNewest => items,
        }
    }
}

/// The outcome reported by publishing onto a queue of length `items_len`.
pub open spec fn spec_publish_result(items_len: int, depth: int, policy: QueuePolicy) -> ComResult<
    (),
> {
    if items_len < depth || !(policy matches QueuePolicy::ErrorOnFull) {
        Ok(())
    } else {
        Err(ComError::QueueFull)
    }
}

/// Whether a publish onto a queue of length `items_len` accepts the payload
/// into the published history.
pub open spec fn spec_publish_accepted(items_len: int, depth: int, policy: QueuePolicy) -> bool {
    items_len < depth || !(policy matches QueuePolicy::ErrorOnFull)
}

/// Whether a publish onto a queue of length `items_len` evicts a payload
/// (the oldest under `OverwriteOldest`, the incoming one under
/// `OverwriteNewest`).
pub open spec fn spec_publish_evicts(items_len: int, depth: int, policy: QueuePolicy) -> bool {
    items_len >= depth && !(policy matches QueuePolicy::ErrorOnFull)
}

/// Whether `a` is a subsequence of `b`: every element of `a` occurs in
/// `b`, in the same order.
pub open spec fn spec_is_subsequence<T>(a: Seq<T>, b: Seq<T>) -> bool
    decreases a.len() + b.len(),
{
    if a.len() == 0 {
        true
    } else if b.len() == 0 {
        false
    } else {
        (a[0] == b[0] && spec_is_subsequence(a.drop_first(), b.drop_first()))
            || spec_is_subsequence(a, b.drop_first())
    }
}

/// A subsequence of the tail of `b` is a subsequence of `b`.
proof fn lemma_subseq_skip_head<T>(a: Seq<T>, b: Seq<T>)
    requires
        b.len() > 0,
        spec_is_subsequence(a, b.drop_first()),
    ensures
        spec_is_subsequence(a, b),
{
}

/// Appending to the right side preserves the subsequence relation.
proof fn lemma_subseq_push_right<T>(a: Seq<T>, b: Seq<T>, x: T)
    requires
        spec_is_subsequence(a, b),
    ensures
        spec_is_subsequence(a, b.push(x)),
    decreases a.len() + b.len(),
{
    if a.len() == 0 {
    } else {
        assert(b.len() > 0);
        assert(b.push(x).drop_first() =~= b.drop_first().push(x));
        if a[0] == b[0] && spec_is_subsequence(a.drop_first(), b.drop_first()) {
            lemma_subseq_push_right(a.drop_first(), b.drop_first(), x);
        } else {
            lemma_subseq_push_right(a, b.drop_first(), x);
            lemma_subseq_skip_head(a, b.push(x));
        }
    }
}

/// A single element is a subsequence of anything it was appended to.
proof fn lemma_subseq_singleton_push<T>(b: Seq<T>, x: T)
    ensures
        spec_is_subsequence(seq![x], b.push(x)),
    decreases b.len(),
{
    if b.len() == 0 {
        assert(b.push(x) =~= seq![x]);
        assert(seq![x].drop_first() =~= Seq::<T>::empty());
        assert(spec_is_subsequence(Seq::<T>::empty(), Seq::<T>::empty()));
        assert(spec_is_subsequence(seq![x], seq![x]));
    } else {
        lemma_subseq_singleton_push(b.drop_first(), x);
        assert(b.push(x).drop_first() =~= b.drop_first().push(x));
        lemma_subseq_skip_head(seq![x], b.push(x));
    }
}

/// Appending the same element to both sides preserves the subsequence
/// relation.
proof fn lemma_subseq_push_both<T>(a: Seq<T>, b: Seq<T>, x: T)
    requires
        spec_is_subsequence(a, b),
    ensures
        spec_is_subsequence(a.push(x), b.push(x)),
    decreases a.len() + b.len(),
{
    if a.len() == 0 {
        assert(a.push(x) =~= seq![x]);
        lemma_subseq_singleton_push(b, x);
    } else {
        assert(b.len() > 0);
        assert(a.push(x).drop_first() =~= a.drop_first().push(x));
        assert(b.push(x).drop_first() =~= b.drop_first().push(x));
        if a[0] == b[0] && spec_is_subsequence(a.drop_first(), b.drop_first()) {
            lemma_subseq_push_both(a.drop_first(), b.drop_first(), x);
            assert(a.push(x)[0] == b.push(x)[0]);
        } else {
            lemma_subseq_push_both(a, b.drop_first(), x);
            lemma_subseq_skip_head(a.push(x), b.push(x));
        }
    }
}

/// Removing one element from the left side preserves the subsequence
/// relation.
proof fn lemma_subseq_remove<T>(a: Seq<T>, b: Seq<T>, i: int)
    requires
        spec_is_subsequence(a, b),
        0 <= i < a.len(),
    ensures
        spec_is_subsequence(a.remove(i), b),
    decreases a.len() + b.len(),
{
    assert(b.len() > 0);
    if a[0] == b[0] && spec_is_subsequence(a.drop_first(), b.drop_first()) {
        if i == 0 {
            assert(a.remove(0) =~= a.drop_first());
            lemma_subseq_skip_head(a.drop_first(), b);
        } else {
            lemma_subseq_remove(a.drop_first(), b.drop_first(), i - 1);
            assert(a.remove(i).drop_first() =~= a.drop_first().remove(i - 1));
            assert(a.remove(i)[0] == a[0]);
        }
    } else {
        lemma_subseq_remove(a, b.drop_first(), i);
        lemma_subseq_skip_head(a.remove(i), b);
    }
}

/// A bounded FIFO of sample payloads with overflow policy, fan bookkeeping
/// and loss accounting.
pub struct SampleQueue<T> {
    items: VecDeque<T>,
    max_queue_depth: usize,
    queue_policy: QueuePolicy,
    max_fan_in: usize,
    max_fan_out: usize,
    publishers: usize,
    subscribers: usize,
    published_count: u64,
    delivered_count: u64,
    evicted_count: u64,
    published: Ghost<Seq<T>>,
    delivered: Ghost<Seq<T>>,
}

impl<T> SampleQueue<T> {
    /// The live queue contents, front first.
    pub closed spec fn spec_items(&self) -> Seq<T> {
        self.items@
    }

    /// The configured capacity bound.
    pub closed spec fn spec_max_queue_depth(&self) -> int {
        self.max_queue_depth as int
    }

    /// The configured overflow policy.
    pub closed spec fn spec_queue_policy(&self) -> QueuePolicy {
        self.queue_policy
    }

    /// The configured bound on simultaneous publishers.
    pub closed spec fn spec_max_fan_in(&self) -> int {
        self.max_fan_in as int
    }

    /// The configured bound on simultaneous subscribers.
    pub closed spec fn spec_max_fan_out(&self) -> int {
        self.max_fan_out as int
    }

    /// The number of publisher handles minted so far.
    pub closed spec fn spec_publishers(&self) -> int {
        self.publishers as int
    }

    /// The number of subscriber handles minted so far.
    pub closed spec fn spec_subscribers(&self) -> int {
        self.subscribers as int
    }

    /// Every payload accepted by a publish, in publish order.
    pub closed spec fn spec_published(&self) -> Seq<T> {
        self.published@
    }

    /// Every payload handed to a subscriber, in delivery order.
    pub closed spec fn spec_delivered(&self) -> Seq<T> {
        self.delivered@
    }

    /// The number of payloads lost to the overflow policy.
    pub closed spec fn spec_evicted(&self) -> int {
        self.evicted_count as int
    }

    /// The configuration part of the state: everything a queue operation
    /// never changes.
    pub open spec fn same_config(&self, other: &Self) -> bool {
        &&& self.spec_max_queue_depth() == other.spec_max_queue_depth()
        &&& self.spec_queue_policy() == other.spec_queue_policy()
        &&& self.spec_max_fan_in() == other.spec_max_fan_in()
        &&& self.spec_max_fan_out() == other.spec_max_fan_out()
    }

    /// The queue invariant.
    ///
    /// The element count never exceeds the configured depth; the counters
    /// match the ghost histories; every published payload is either
    /// delivered, still queued, or evicted; and while nothing has been
    /// evicted the published history is exactly the delivered history
    /// followed by the live contents.
    pub closed spec fn inv(&self) -> bool {
        &&& self.items@.len() <= self.max_queue_depth
        &&& self.max_queue_depth >= 1
        &&& self.max_fan_in >= 1
        &&& self.max_fan_out >= 1
        &&& self.publishers <= self.max_fan_in
        &&& self.subscribers <= self.max_fan_out
        &&& self.published_count == self.published@.len()
        &&& self.delivered_count == self.delivered@.len()
        &&& self.published@.len() == self.delivered@.len() + self.evicted_count
            + self.items@.len()
        &&& self.evicted_count == 0 ==> self.published@ == self.delivered@ + self.items@
        &&& spec_is_subsequence(self.delivered@ + self.items@, self.published@)
    }

    /// Create an empty queue with the given configuration.
    pub fn new(
        max_queue_depth: usize,
        queue_policy: QueuePolicy,
        max_fan_in: usize,
        max_fan_out: usize,
    ) -> (r: SampleQueue<T>)
        requires
            max_queue_depth >= 1,
            max_fan_in >= 1,
            max_fan_out >= 1,
        ensures
            r.inv(),
            r.spec_items() == Seq::<T>::empty(),
            r.spec_published() == Seq::<T>::empty(),
            r.spec_delivered() == Seq::<T>::empty(),
            r.spec_evicted() == 0,
            r.spec_publishers() == 0,
            r.spec_subscribers() == 0,
            r.spec_max_queue_depth() == max_queue_depth,
            r.spec_queue_policy() == queue_policy,
            r.spec_max_fan_in() == max_fan_in,
            r.spec_max_fan_out() == max_fan_out,
    {
        SampleQueue {
            items: VecDeque::new(),
            max_queue_depth,
            queue_policy,
            max_fan_in,
            max_fan_out,
            publishers: 0,
            subscribers: 0,
            published_count: 0,
            delivered_count: 0,
            evicted_count: 0,
            published: Ghost(Seq::empty()),
            delivered: Ghost(Seq::empty()),
        }
    }

    /// Account for a new publisher handle.
    ///
    /// Succeeds exactly while fewer than `max_fan_in` publishers exist;
    /// the excess request is rejected with `FanError`.
    pub fn add_publisher(&mut self) -> (r: ComResult<()>)
        requires
            old(self).inv(),
        ensures
            final(self).inv(),
            old(self).same_config(final(self)),
            final(self).spec_items() == old(self).spec_items(),
            final(self).spec_published() == old(self).spec_published(),
            final(self).spec_delivered() == old(self).spec_delivered(),
            final(self).spec_evicted() == old(self).spec_evicted(),
            final(self).spec_subscribers() == old(self).spec_subscribers(),
            (r is Ok) <==> old(self).spec_publishers() < old(self).spec_max_fan_in(),
            r matches Err(e) ==> e == ComError::FanError,
            r matches Ok(_) ==> final(self).spec_publishers() == old(self).spec_publishers() + 1,
            r matches Err(_) ==> final(self).spec_publishers() == old(self).spec_publishers(),
    {
        if self.publishers < self.max_fan_in {
            self.publishers = self.publishers + 1;
            Ok(())
        } else {
            Err(ComError::FanError)
        }
    }

    /// Account for a new subscriber handle.
    ///
    /// Succeeds exactly while fewer than `max_fan_out` subscribers exist;
    /// the excess request is rejected with `FanError`.
    pub fn add_subscriber(&mut self) -> (r: ComResult<()>)
        requires
            old(self).inv(),
        ensures
            final(self).inv(),
            old(self).same_config(final(self)),
            final(self).spec_items() == old(self).spec_items(),
            final(self).spec_published() == old(self).spec_published(),
            final(self).spec_delivered() == old(self).spec_delivered(),
            final(self).spec_evicted() == old(self).spec_evicted(),
            final(self).spec_publishers() == old(self).spec_publishers(),
            (r is Ok) <==> old(self).spec_subscribers() < old(self).spec_max_fan_out(),
            r matches Err(e) ==> e == ComError::FanError,
            r matches Ok(_) ==> final(self).spec_subscribers() == old(self).spec_subscribers()
                + 1,
            r matches Err(_) ==> final(self).spec_subscribers() == old(self).spec_subscribers(),
    {
        if self.subscribers < self.max_fan_out {
            self.subscribers = self.subscribers + 1;
            Ok(())
        } else {
            Err(ComError::FanError)
        }
    }

    /// Publish one payload, applying the overflow policy at capacity.
    ///
    /// Below capacity the payload is appended.  At capacity,
    /// `ErrorOnFull` rejects it with `QueueFull`, `OverwriteOldest` evicts
    /// the front element and appends the payload, and `OverwriteNewest`
    /// drops the payload while still reporting success.
    pub fn publish(&mut self, value: T) -> (r: ComResult<()>)
        requires
            old(self).inv(),
            old(self).spec_published().len() < u64::MAX,
        ensures
            final(self).inv(),
            old(self).same_config(final(self)),
            final(self).spec_publishers() == old(self).spec_publishers(),
            final(self).spec_subscribers() == old(self).spec_subscribers(),
            final(self).spec_delivered() == old(self).spec_delivered(),
            r == spec_publish_result(
                old(self).spec_items().len() as int,
                old(self).spec_max_queue_depth(),
                old(self).spec_queue_policy(),
            ),
            final(self).spec_items() == spec_publish_items(
                old(self).spec_items(),
                old(self).spec_max_queue_depth(),
                old(self).spec_queue_policy(),
                value,
            ),
            final(self).spec_published() == if spec_publish_accepted(
                old(self).spec_items().len() as int,
                old(self).spec_max_queue_depth(),
                old(self).spec_queue_policy(),
            ) {
                old(self).spec_published().push(value)
            } else {
                old(self).spec_published()
            },
            final(self).spec_evicted() == old(self).spec_evicted() + if spec_publish_evicts(
                old(self).spec_items().len() as int,
                old(self).spec_max_queue_depth(),
                old(self).spec_queue_policy(),
            ) {
                1int
            } else {
                0int
            },
    {
        if self.items.len() < self.max_queue_depth {
            self.items.push_back(value);
            self.published_count = self.published_count + 1;
            proof {
                self.published@ = self.published@.push(value);
                lemma_subseq_push_both(
                    old(self).delivered@ + old(self).items@,
                    old(self).published@,
                    value,
                );
                assert(self.delivered@ + self.items@ =~= (old(self).delivered@ + old(
                    self,
                ).items@).push(value));
            }
            Ok(())
        } else {
            match self.queue_policy {
                QueuePolicy::ErrorOnFull => Err(ComError::QueueFull),
                QueuePolicy::OverwriteOldest => {
                    let _evicted = self.items.pop_front();
                    self.items.push_back(value);
                    self.published_count = self.published_count + 1;
                    self.evicted_count = self.evicted_count + 1;
                    proof {
                        self.published@ = self.published@.push(value);
                        assert(final(self).spec_items() =~= old(self).spec_items().drop_first().push(
                            value,
                        ));
                        let survivors = old(self).delivered@ + old(self).items@.drop_first();
                        lemma_subseq_remove(
                            old(self).delivered@ + old(self).items@,
                            old(self).published@,
                            old(self).delivered@.len() as int,
                        );
                        assert((old(self).delivered@ + old(self).items@).remove(
                            old(self).delivered@.len() as int,
                        ) =~= survivors);
                        lemma_subseq_push_both(survivors, old(self).published@, value);
                        assert(self.delivered@ + self.items@ =~= survivors.push(value));
                    }
                    Ok(())
                },
                QueuePolicy::OverwriteNewest => {
                    self.published_count = self.published_count + 1;
                    self.evicted_count = self.evicted_count + 1;
                    proof {
                        self.published@ = self.published@.push(value);
                        lemma_subseq_push_right(
                            old(self).delivered@ + old(self).items@,
                            old(self).published@,
                            value,
                        );
                    }
                    Ok(())
                },
            }
        }
    }

    /// Take the front payload if one is present.
    ///
    /// Returns `Some` with the oldest payload exactly when the queue is
    /// non-empty; an empty queue is left untouched.
    pub fn take_front(&mut self) -> (r: Option<T>)
        requires
            old(self).inv(),
        ensures
            final(self).inv(),
            old(self).same_config(final(self)),
            final(self).spec_publishers() == old(self).spec_publishers(),
            final(self).spec_subscribers() == old(self).spec_subscribers(),
            final(self).spec_published() == old(self).spec_published(),
            final(self).spec_evicted() == old(self).spec_evicted(),
            old(self).spec_items().len() == 0 ==> {
                &&& r matches None
                &&& final(self).spec_items() == old(self).spec_items()
                &&& final(self).spec_delivered() == old(self).spec_delivered()
            },
            old(self).spec_items().len() > 0 ==> {
                &&& r == Some(old(self).spec_items()[0])
                &&& final(self).spec_items() == old(self).spec_items().drop_first()
                &&& final(self).spec_delivered() == old(self).spec_delivered().push(
                    old(self).spec_items()[0],
                )
            },
    {
        match self.items.pop_front() {
            Some(value) => {
                proof {
                    assert(old(self).delivered@.len() < old(self).published@.len());
                }
                self.delivered_count = self.delivered_count + 1;
                proof {
                    self.delivered@ = self.delivered@.push(value);
                    assert(final(self).spec_items() =~= old(self).spec_items().drop_first());
                    assert(old(self).delivered@.push(old(self).items@[0]) + old(
                        self,
                    ).items@.drop_first() =~= old(self).delivered@ + old(self).items@);
                }
                Some(value)
            },
            None => None,
        }
    }

    /// The current element count.
    pub fn len(&self) -> (r: usize)
        ensures
            r == self.spec_items().len(),
    {
        self.items.len()
    }

    /// The configured capacity bound.
    pub fn max_queue_depth(&self) -> (r: usize)
        ensures
            r == self.spec_max_queue_depth(),
    {
        self.max_queue_depth
    }

    /// The configured overflow policy.
    pub fn queue_policy(&self) -> (r: QueuePolicy)
        ensures
            r == self.spec_queue_policy(),
    {
        self.queue_policy
    }

    /// How many payloads have been accepted by publishes.
    pub fn published_count(&self) -> (r: u64)
        requires
            self.inv(),
        ensures
            r == self.spec_published().len(),
    {
        self.published_count
    }

    /// How many payloads have been handed to subscribers.
    pub fn delivered_count(&self) -> (r: u64)
        requires
            self.inv(),
        ensures
            r == self.spec_delivered().len(),
    {
        self.delivered_count
    }

    /// How many payloads were lost to the overflow policy.
    pub fn evicted_count(&self) -> (r: u64)
        ensures
            r == self.spec_evicted(),
    {
        self.evicted_count
    }
}

/// Law: retained samples keep their publish order under every policy.
/// What has been delivered, followed by what is still queued, is — in
/// order — a subsequence of everything published: eviction only ever
/// removes samples, it never reorders them.
pub proof fn lemma_retained_order<T>(q: SampleQueue<T>)
    requires
        q.inv(),
    ensures
        spec_is_subsequence(q.spec_delivered() + q.spec_items(), q.spec_published()),
{
}

/// Law: across any sequence of operations the element count never exceeds
/// `max_queue_depth` — the invariant carries the bound, and every operation
/// of `SampleQueue` preserves the invariant.
pub proof fn lemma_queue_capacity_bound<T>(q: SampleQueue<T>)
    requires
        q.inv(),
    ensures
        q.spec_items().len() <= q.spec_max_queue_depth(),
{
}

/// Law: a single publish step keeps the element count within `depth`, no
/// matter which policy is configured.
pub proof fn lemma_publish_preserves_capacity<T>(
    items: Seq<T>,
    depth: int,
    policy: QueuePolicy,
    v: T,
)
    requires
        depth >= 1,
        items.len() <= depth,
    ensures
        spec_publish_items(items, depth, policy, v).len() <= depth,
{
}

/// Law: the `ErrorOnFull` policy never evicts: a publish either appends
/// below capacity or is rejected, so the eviction counter stays zero and
/// FIFO delivery holds unconditionally under this policy.
pub proof fn lemma_error_on_full_never_evicts(items_len: int, depth: int)
    ensures
        !spec_publish_evicts(items_len, depth, QueuePolicy::ErrorOnFull),
{
}

/// Law: under `OverwriteOldest` a publish at capacity keeps the retained
/// samples in their order: every survivor moves up exactly one slot and
/// the new sample enters at the back.
pub proof fn lemma_overwrite_oldest_retains_order<T>(items: Seq<T>, depth: int, v: T)
    requires
        depth >= 1,
        items.len() == depth,
    ensures
        spec_publish_items(items, depth, QueuePolicy::OverwriteOldest, v).len() == depth,
        forall|i: int|
            0 <= i < depth - 1 ==> spec_publish_items(
                items,
                depth,
                QueuePolicy::OverwriteOldest,
                v,
            )[i] == items[i + 1],
        spec_publish_items(items, depth, QueuePolicy::OverwriteOldest, v).last() == v,
{
}

/// Law: loss accounting.  At every quiescent instant,
/// `published - delivered - current_depth = evicted`.
pub proof fn lemma_loss_accounting<T>(q: SampleQueue<T>)
    requires
        q.inv(),
    ensures
        q.spec_published().len() - q.spec_delivered().len() - q.spec_items().len()
            == q.spec_evicted(),
{
}

/// Law: FIFO delivery while nothing has been evicted (which is always the
/// case under `ErrorOnFull`): the published history is exactly the
/// delivered history followed by the still-queued payloads, so the
/// delivered sequence is a prefix of the published sequence.
pub proof fn lemma_fifo_no_eviction<T>(q: SampleQueue<T>)
    requires
        q.inv(),
        q.spec_evicted() == 0,
    ensures
        q.spec_published() == q.spec_delivered() + q.spec_items(),
        q.spec_delivered() == q.spec_published().take(q.spec_delivered().len() as int),
{
    assert(q.spec_delivered() =~= (q.spec_delivered() + q.spec_items()).take(
        q.spec_delivered().len() as int,
    ));
}

/// Law: sample lifecycle.  A publish below capacity succeeds and appends
/// exactly the written payload, leaving every older payload in place; a
/// subscriber that drains the queue therefore observes that payload, in
/// position, unchanged.
pub proof fn lemma_sample_lifecycle<T>(items: Seq<T>, depth: int, policy: QueuePolicy, v: T)
    requires
        items.len() < depth,
    ensures
        spec_publish_result(items.len() as int, depth, policy) == Ok::<(), ComError>(()),
        spec_publish_items(items, depth, policy, v).len() == items.len() + 1,
        spec_publish_items(items, depth, policy, v).last() == v,
        forall|i: int|
            0 <= i < items.len() ==> spec_publish_items(items, depth, policy, v)[i] == items[i],
{
}

} // verus!
