//! The transaction store shared by every remote-procedure implementation.
//!
//! A remote procedure correlates requests and responses through
//! transaction records.  The client creates a record by executing a
//! request; the record's index is the correlation key.  A service worker
//! receives the oldest pending record, computes a result and responds to
//! exactly that record; the client's pending handle later consumes the
//! result at most once.

use vstd::prelude::*;
use std::collections::VecDeque;
use crate::base::{ComError, ComResult};

verus! {

/// One request/response transaction.
///
/// `args` is written by the client before the record enters the pending
/// queue.  `received` is set when a service worker dequeues the record,
/// `result` when the worker responds, and `result_consumed` when the
/// client reads the result.
#[derive(Debug, Clone, Copy)]
pub struct TransactionRecord<Args, R> {
    pub args: Args,
    pub received: bool,
    pub result: Option<R>,
    pub result_consumed: bool,
}

/// The record created when a request with arguments `args` is executed.
pub open spec fn spec_fresh_record<Args, R>(args: Args) -> TransactionRecord<Args, R> {
    TransactionRecord { args, received: false, result: None, result_consumed: false }
}

/// The record store after responding with `v` to transaction `tx`.
pub open spec fn spec_respond<Args, R>(
    records: Seq<TransactionRecord<Args, R>>,
    tx: int,
    v: R,
) -> Seq<TransactionRecord<Args, R>> {
    records.update(tx, TransactionRecord { result: Some(v), ..records[tx] })
}

/// The record store after the client consumed the result of `tx`.
pub open spec fn spec_mark_consumed<Args, R>(
    records: Seq<TransactionRecord<Args, R>>,
    tx: int,
) -> Seq<TransactionRecord<Args, R>> {
    records.update(tx, TransactionRecord { result_consumed: true, ..records[tx] })
}

/// What a non-blocking read of the result of `rec` reports: an already
/// consumed result is an error, a present result is consumed, an absent
/// result is `None`.
pub open spec fn spec_take_result<Args, R>(rec: TransactionRecord<Args, R>) -> ComResult<
    Option<R>,
> {
    if rec.result_consumed {
        Err(ComError::ResponseConsumed)
    } else {
        match rec.result {
            Some(v) => Ok(Some(v)),
            None => Ok(None),
        }
    }
}

/// The shared state of one remote procedure: every transaction record ever
/// created, the FIFO of pending (not yet received) transactions, and the
/// fan bookkeeping for invoker and invokee handles.
pub struct RpcCore<Args, R> {
    records: Vec<TransactionRecord<Args, R>>,
    pending: VecDeque<usize>,
    max_queue_depth: usize,
    max_invokers_client: usize,
    max_invokers_service: usize,
    invokers: usize,
    invokees: usize,
}

impl<Args, R> RpcCore<Args, R> {
    /// Every transaction record, indexed by its correlation key.
    pub closed spec fn spec_records(&self) -> Seq<TransactionRecord<Args, R>> {
        self.records@
    }

    /// The correlation keys of the pending transactions, oldest first.
    pub closed spec fn spec_pending(&self) -> Seq<usize> {
        self.pending@
    }

    /// The configured bound of the pending queue.
    pub closed spec fn spec_max_queue_depth(&self) -> int {
        self.max_queue_depth as int
    }

    /// The configured bound on invoker handles.
    pub closed spec fn spec_max_invokers_client(&self) -> int {
        self.max_invokers_client as int
    }

    /// The configured bound on invokee handles.
    pub closed spec fn spec_max_invokers_service(&self) -> int {
        self.max_invokers_service as int
    }

    /// The number of invoker handles minted so far.
    pub closed spec fn spec_invokers(&self) -> int {
        self.invokers as int
    }

    /// The number of invokee handles minted so far.
    pub closed spec fn spec_invokees(&self) -> int {
        self.invokees as int
    }

    /// The configuration part of the state.
    pub open spec fn same_config(&self, other: &Self) -> bool {
        &&& self.spec_max_queue_depth() == other.spec_max_queue_depth()
        &&& self.spec_max_invokers_client() == other.spec_max_invokers_client()
        &&& self.spec_max_invokers_service() == other.spec_max_invokers_service()
    }

    /// The remote-procedure invariant.
    ///
    /// The pending queue respects its bound, references only existing
    /// records, holds strictly increasing correlation keys (so every
    /// pending transaction is observed by at most one worker), and every
    /// pending record is still unreceived, unanswered and unconsumed.
    pub closed spec fn inv(&self) -> bool {
        &&& self.max_queue_depth >= 1
        &&& self.max_invokers_client >= 1
        &&& self.max_invokers_service >= 1
        &&& self.invokers <= self.max_invokers_client
        &&& self.invokees <= self.max_invokers_service
        &&& self.pending@.len() <= self.max_queue_depth
        &&& forall|k: int|
            0 <= k < self.pending@.len() ==> #[trigger] self.pending@[k] < self.records@.len()
        &&& forall|k1: int, k2: int|
            0 <= k1 < k2 < self.pending@.len() ==> #[trigger] self.pending@[k1]
                < #[trigger] self.pending@[k2]
        &&& forall|k: int|
            0 <= k < self.pending@.len() ==> {
                &&& !(#[trigger] self.records@[self.pending@[k] as int]).received
                &&& self.records@[self.pending@[k] as int].result matches None
                &&& !self.records@[self.pending@[k] as int].result_consumed
            }
    }

    /// Create a remote procedure with the given configuration and no
    /// transactions.
    pub fn new(
        max_queue_depth: usize,
        max_invokers_client: usize,
        max_invokers_service: usize,
    ) -> (r: RpcCore<Args, R>)
        requires
            max_queue_depth >= 1,
            max_invokers_client >= 1,
            max_invokers_service >= 1,
        ensures
            r.inv(),
            r.spec_records() == Seq::<TransactionRecord<Args, R>>::empty(),
            r.spec_pending() == Seq::<usize>::empty(),
            r.spec_invokers() == 0,
            r.spec_invokees() == 0,
            r.spec_max_queue_depth() == max_queue_depth,
            r.spec_max_invokers_client() == max_invokers_client,
            r.spec_max_invokers_service() == max_invokers_service,
    {
        RpcCore {
            records: Vec::new(),
            pending: VecDeque::new(),
            max_queue_depth,
            max_invokers_client,
            max_invokers_service,
            invokers: 0,
            invokees: 0,
        }
    }

    /// Account for a new invoker handle.
    ///
    /// Succeeds exactly while fewer than `max_invokers_client` invokers
    /// exist; the excess request is rejected with `FanError`.
    pub fn add_invoker(&mut self) -> (r: ComResult<()>)
        requires
            old(self).inv(),
        ensures
            final(self).inv(),
            old(self).same_config(final(self)),
            final(self).spec_records() == old(self).spec_records(),
            final(self).spec_pending() == old(self).spec_pending(),
            final(self).spec_invokees() == old(self).spec_invokees(),
            (r is Ok) <==> old(self).spec_invokers() < old(self).spec_max_invokers_client(),
            r matches Err(e) ==> e == ComError::FanError,
            r matches Ok(_) ==> final(self).spec_invokers() == old(self).spec_invokers() + 1,
            r matches Err(_) ==> final(self).spec_invokers() == old(self).spec_invokers(),
    {
        if self.invokers < self.max_invokers_client {
            self.invokers = self.invokers + 1;
            Ok(())
        } else {
            Err(ComError::FanError)
        }
    }

    /// Account for a new invokee (service worker) handle.
    ///
    /// Succeeds exactly while fewer than `max_invokers_service` invokees
    /// exist; the excess request is rejected with `FanError`.
    pub fn add_invokee(&mut self) -> (r: ComResult<()>)
        requires
            old(self).inv(),
        ensures
            final(self).inv(),
            old(self).same_config(final(self)),
            final(self).spec_records() == old(self).spec_records(),
            final(self).spec_pending() == old(self).spec_pending(),
            final(self).spec_invokers() == old(self).spec_invokers(),
            (r is Ok) <==> old(self).spec_invokees() < old(self).spec_max_invokers_service(),
            r matches Err(e) ==> e == ComError::FanError,
            r matches Ok(_) ==> final(self).spec_invokees() == old(self).spec_invokees() + 1,
            r matches Err(_) ==> final(self).spec_invokees() == old(self).spec_invokees(),
    {
        if self.invokees < self.max_invokers_service {
            self.invokees = self.invokees + 1;
            Ok(())
        } else {
            Err(ComError::FanError)
        }
    }

    /// Execute a request: create its transaction record and append it to
    /// the pending queue.
    ///
    /// Returns the fresh correlation key, or `QueueFull` (leaving the
    /// state unchanged) when the pending queue is at its bound.
    pub fn execute(&mut self, args: Args) -> (r: ComResult<usize>)
        requires
            old(self).inv(),
            old(self).spec_records().len() < usize::MAX,
        ensures
            final(self).inv(),
            old(self).same_config(final(self)),
            final(self).spec_invokers() == old(self).spec_invokers(),
            final(self).spec_invokees() == old(self).spec_invokees(),
            old(self).spec_pending().len() < old(self).spec_max_queue_depth() ==> {
                &&& r == Ok::<usize, ComError>(old(self).spec_records().len() as usize)
                &&& final(self).spec_records() == old(self).spec_records().push(
                    spec_fresh_record(args),
                )
                &&& final(self).spec_pending() == old(self).spec_pending().push(
                    old(self).spec_records().len() as usize,
                )
            },
            old(self).spec_pending().len() >= old(self).spec_max_queue_depth() ==> {
                &&& r == Err::<usize, ComError>(ComError::QueueFull)
                &&& final(self).spec_records() == old(self).spec_records()
                &&& final(self).spec_pending() == old(self).spec_pending()
            },
    {
        if self.pending.len() < self.max_queue_depth {
            let tx = self.records.len();
            self.records.push(
                TransactionRecord { args, received: false, result: None, result_consumed: false },
            );
            self.pending.push_back(tx);
            Ok(tx)
        } else {
            Err(ComError::QueueFull)
        }
    }
}

impl<Args: Copy, R: Copy> RpcCore<Args, R> {
    /// Dequeue the oldest pending transaction, if any, marking it
    /// received and handing its key and arguments to the service worker.
    ///
    /// An empty pending queue leaves the state unchanged.
    pub fn try_receive(&mut self) -> (r: Option<(usize, Args)>)
        requires
            old(self).inv(),
        ensures
            final(self).inv(),
            old(self).same_config(final(self)),
            final(self).spec_invokers() == old(self).spec_invokers(),
            final(self).spec_invokees() == old(self).spec_invokees(),
            old(self).spec_pending().len() == 0 ==> {
                &&& r matches None
                &&& final(self).spec_records() == old(self).spec_records()
                &&& final(self).spec_pending() == old(self).spec_pending()
            },
            old(self).spec_pending().len() > 0 ==> {
                &&& old(self).spec_pending()[0] < old(self).spec_records().len()
                &&& r matches Some(p) && p.0 == old(self).spec_pending()[0] && p.1 == old(
                    self,
                ).spec_records()[old(self).spec_pending()[0] as int].args
                &&& final(self).spec_pending() == old(self).spec_pending().drop_first()
                &&& final(self).spec_records() == old(self).spec_records().update(
                    old(self).spec_pending()[0] as int,
                    TransactionRecord {
                        received: true,
                        ..old(self).spec_records()[old(self).spec_pending()[0] as int]
                    },
                )
            },
    {
        match self.pending.pop_front() {
            Some(tx) => {
                proof {
                    assert(self.pending@ =~= old(self).pending@.drop_first());
                }
                let args = self.records[tx].args;
                let rec = &mut self.records[tx];
                rec.received = true;
                proof {
                    assert forall|k: int| 0 <= k < self.pending@.len() implies #[trigger] self
                        .pending@[k] != tx by {
                        assert(old(self).pending@[k + 1] > old(self).pending@[0]);
                    }
                }
                Some((tx, args))
            },
            None => None,
        }
    }

    /// Dequeue the oldest pending transaction.
    ///
    /// Blocking semantics demand a pending transaction to be present when
    /// the call is made: the sole owner of the state could otherwise wait
    /// forever, since no concurrent client can append one during the call.
    pub fn receive(&mut self) -> (r: (usize, Args))
        requires
            old(self).inv(),
            old(self).spec_pending().len() > 0,
        ensures
            final(self).inv(),
            old(self).same_config(final(self)),
            final(self).spec_invokers() == old(self).spec_invokers(),
            final(self).spec_invokees() == old(self).spec_invokees(),
            old(self).spec_pending()[0] < old(self).spec_records().len(),
            r.0 == old(self).spec_pending()[0],
            r.1 == old(self).spec_records()[old(self).spec_pending()[0] as int].args,
            final(self).spec_pending() == old(self).spec_pending().drop_first(),
            final(self).spec_records() == old(self).spec_records().update(
                old(self).spec_pending()[0] as int,
                TransactionRecord {
                    received: true,
                    ..old(self).spec_records()[old(self).spec_pending()[0] as int]
                },
            ),
    {
        let r = self.try_receive();
        r.unwrap()
    }

    /// Dequeue the oldest pending transaction, giving up with `Timeout`
    /// after the deadline.
    ///
    /// At a quiescent point the deadline can only expire when the queue is
    /// already empty, and the timed-out call leaves every record and the
    /// queue exactly as they were.
    pub fn receive_timeout(&mut self, timeout_ms: u64) -> (r: ComResult<(usize, Args)>)
        requires
            old(self).inv(),
        ensures
            final(self).inv(),
            old(self).same_config(final(self)),
            final(self).spec_invokers() == old(self).spec_invokers(),
            final(self).spec_invokees() == old(self).spec_invokees(),
            old(self).spec_pending().len() == 0 ==> {
                &&& r == Err::<(usize, Args), ComError>(ComError::Timeout)
                &&& final(self).spec_records() == old(self).spec_records()
                &&& final(self).spec_pending() == old(self).spec_pending()
            },
            old(self).spec_pending().len() > 0 ==> {
                &&& old(self).spec_pending()[0] < old(self).spec_records().len()
                &&& r matches Ok(p) && p.0 == old(self).spec_pending()[0] && p.1 == old(
                    self,
                ).spec_records()[old(self).spec_pending()[0] as int].args
                &&& final(self).spec_pending() == old(self).spec_pending().drop_first()
                &&& final(self).spec_records() == old(self).spec_records().update(
                    old(self).spec_pending()[0] as int,
                    TransactionRecord {
                        received: true,
                        ..old(self).spec_records()[old(self).spec_pending()[0] as int]
                    },
                )
            },
    {
        match self.try_receive() {
            Some(p) => Ok(p),
            None => Err(ComError::Timeout),
        }
    }

    /// Store the service's result in transaction `tx` and mark it ready.
    ///
    /// Succeeds exactly on a transaction that a worker has received;
    /// any other key is rejected with `StateError` and changes nothing.
    pub fn respond(&mut self, tx: usize, value: R) -> (r: ComResult<()>)
        requires
            old(self).inv(),
        ensures
            final(self).inv(),
            old(self).same_config(final(self)),
            final(self).spec_pending() == old(self).spec_pending(),
            final(self).spec_invokers() == old(self).spec_invokers(),
            final(self).spec_invokees() == old(self).spec_invokees(),
            tx < old(self).spec_records().len() && old(self).spec_records()[tx as int].received
                ==> {
                &&& r == Ok::<(), ComError>(())
                &&& final(self).spec_records() == spec_respond(
                    old(self).spec_records(),
                    tx as int,
                    value,
                )
            },
            !(tx < old(self).spec_records().len() && old(
                self,
            ).spec_records()[tx as int].received) ==> {
                &&& r == Err::<(), ComError>(ComError::StateError)
                &&& final(self).spec_records() == old(self).spec_records()
            },
    {
        if tx < self.records.len() {
            let rec = &mut self.records[tx];
            if rec.received {
                rec.result = Some(value);
                proof {
                    assert forall|k: int| 0 <= k < self.pending@.len() implies #[trigger] self
                        .pending@[k] != tx by {
                        assert(!old(self).records@[old(self).pending@[k] as int].received);
                    }
                }
                Ok(())
            } else {
                Err(ComError::StateError)
            }
        } else {
            Err(ComError::StateError)
        }
    }

    /// Read the result of transaction `tx` without blocking.
    ///
    /// Reports `ResponseConsumed` if the result was read before, hands out
    /// and consumes the result if it is ready, and returns `None` (leaving
    /// everything unchanged) while the service has not responded.
    pub fn try_take_result(&mut self, tx: usize) -> (r: ComResult<Option<R>>)
        requires
            old(self).inv(),
        ensures
            final(self).inv(),
            old(self).same_config(final(self)),
            final(self).spec_pending() == old(self).spec_pending(),
            final(self).spec_invokers() == old(self).spec_invokers(),
            final(self).spec_invokees() == old(self).spec_invokees(),
            tx >= old(self).spec_records().len() ==> {
                &&& r == Err::<Option<R>, ComError>(ComError::StateError)
                &&& final(self).spec_records() == old(self).spec_records()
            },
            tx < old(self).spec_records().len() ==> {
                &&& r == spec_take_result(old(self).spec_records()[tx as int])
                &&& final(self).spec_records() == if old(
                    self,
                ).spec_records()[tx as int].result matches Some(_) && !old(
                    self,
                ).spec_records()[tx as int].result_consumed {
                    spec_mark_consumed(old(self).spec_records(), tx as int)
                } else {
                    old(self).spec_records()
                }
            },
    {
        if tx < self.records.len() {
            let rec = &mut self.records[tx];
            if rec.result_consumed {
                Err(ComError::ResponseConsumed)
            } else {
                match rec.result {
                    Some(v) => {
                        rec.result_consumed = true;
                        proof {
                            assert forall|k: int| 0 <= k < self.pending@.len() implies #[trigger]
                                self.pending@[k] != tx by {
                                let rec_k = old(self).records@[old(self).pending@[k] as int];
                                assert(rec_k.result matches None);
                            }
                        }
                        Ok(Some(v))
                    },
                    None => Ok(None),
                }
            }
        } else {
            Err(ComError::StateError)
        }
    }

    /// Read the result of transaction `tx`, blocking until it is ready.
    ///
    /// Blocking semantics demand the result be ready (or already consumed,
    /// which reports `ResponseConsumed`) when the call is made: the sole
    /// owner of the state could otherwise wait forever.
    pub fn take_result(&mut self, tx: usize) -> (r: ComResult<R>)
        requires
            old(self).inv(),
            tx < old(self).spec_records().len(),
            old(self).spec_records()[tx as int].result_consumed || old(
                self,
            ).spec_records()[tx as int].result matches Some(_),
        ensures
            final(self).inv(),
            old(self).same_config(final(self)),
            final(self).spec_pending() == old(self).spec_pending(),
            old(self).spec_records()[tx as int].result_consumed ==> {
                &&& r == Err::<R, ComError>(ComError::ResponseConsumed)
                &&& final(self).spec_records() == old(self).spec_records()
            },
            !old(self).spec_records()[tx as int].result_consumed ==> {
                &&& old(self).spec_records()[tx as int].result matches Some(v) && r == Ok::<
                    R,
                    ComError,
                >(v)
                &&& final(self).spec_records() == spec_mark_consumed(
                    old(self).spec_records(),
                    tx as int,
                )
            },
    {
        match self.try_take_result(tx) {
            Ok(Some(v)) => Ok(v),
            Ok(None) => Err(ComError::StateError),
            Err(e) => Err(e),
        }
    }

    /// Read the result of transaction `tx`, giving up with `Timeout` after
    /// the deadline.
    ///
    /// A timed-out read leaves the pending queue and every record exactly
    /// as they were.
    pub fn take_result_timeout(&mut self, tx: usize, timeout_ms: u64) -> (r: ComResult<R>)
        requires
            old(self).inv(),
        ensures
            final(self).inv(),
            old(self).same_config(final(self)),
            final(self).spec_pending() == old(self).spec_pending(),
            tx >= old(self).spec_records().len() ==> {
                &&& r == Err::<R, ComError>(ComError::StateError)
                &&& final(self).spec_records() == old(self).spec_records()
            },
            tx < old(self).spec_records().len() ==> {
                &&& old(self).spec_records()[tx as int].result_consumed ==> {
                    &&& r == Err::<R, ComError>(ComError::ResponseConsumed)
                    &&& final(self).spec_records() == old(self).spec_records()
                }
                &&& !old(self).spec_records()[tx as int].result_consumed ==> {
                    &&& old(self).spec_records()[tx as int].result matches Some(v) ==> {
                        &&& r == Ok::<R, ComError>(v)
                        &&& final(self).spec_records() == spec_mark_consumed(
                            old(self).spec_records(),
                            tx as int,
                        )
                    }
                    &&& old(self).spec_records()[tx as int].result matches None ==> {
                        &&& r == Err::<R, ComError>(ComError::Timeout)
                        &&& final(self).spec_records() == old(self).spec_records()
                    }
                }
            },
    {
        match self.try_take_result(tx) {
            Ok(Some(v)) => Ok(v),
            Ok(None) => Err(ComError::Timeout),
            Err(e) => Err(e),
        }
    }
}

impl<Args, R> RpcCore<Args, R> {
    /// How many transactions are pending.
    pub fn pending_count(&self) -> (r: usize)
        ensures
            r == self.spec_pending().len(),
    {
        self.pending.len()
    }

    /// How many transactions were ever created.
    pub fn transaction_count(&self) -> (r: usize)
        ensures
            r == self.spec_records().len(),
    {
        self.records.len()
    }
}

/// Law: correlation.  Responding to two distinct transactions stores each
/// result exactly at its own correlation key and leaves both argument
/// slots untouched, so each client's read yields the result computed for
/// that client's arguments.
pub proof fn lemma_rpc_correlation<Args, R>(
    records: Seq<TransactionRecord<Args, R>>,
    tx1: int,
    tx2: int,
    v1: R,
    v2: R,
)
    requires
        0 <= tx1 < records.len(),
        0 <= tx2 < records.len(),
        tx1 != tx2,
    ensures
        spec_respond(spec_respond(records, tx1, v1), tx2, v2)[tx1].result == Some(v1),
        spec_respond(spec_respond(records, tx1, v1), tx2, v2)[tx2].result == Some(v2),
        spec_respond(spec_respond(records, tx1, v1), tx2, v2)[tx1].args == records[tx1].args,
        spec_respond(spec_respond(records, tx1, v1), tx2, v2)[tx2].args == records[tx2].args,
{
}

/// Law: a response is consumed at most once.  Reading a ready, unconsumed
/// result yields it, and any subsequent read of the same transaction
/// reports `ResponseConsumed`.
pub proof fn lemma_response_consumed_once<Args, R>(
    records: Seq<TransactionRecord<Args, R>>,
    tx: int,
    v: R,
)
    requires
        0 <= tx < records.len(),
        records[tx].result == Some(v),
        !records[tx].result_consumed,
    ensures
        spec_take_result(records[tx]) == Ok::<Option<R>, ComError>(Some(v)),
        spec_take_result(spec_mark_consumed(records, tx)[tx]) == Err::<Option<R>, ComError>(
            ComError::ResponseConsumed,
        ),
{
}

} // verus!
