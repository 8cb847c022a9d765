//! The heap remote procedure: request/response with correlated
//! transactions over the in-process transaction store, with heap-backed
//! request and response buffers.

use vstd::prelude::*;
use crate::base::{ComError, ComResult};
use crate::transact::{
    spec_fresh_record, spec_mark_consumed, spec_respond, spec_take_result, RpcCore,
    TransactionRecord,
};

verus! {

/// A request buffer whose argument slot is reserved but not yet written.
#[derive(Debug)]
pub struct HeapRequestMaybeUninit<Args, R> {
    marker: core::marker::PhantomData<(Args, R)>,
}

impl<Args, R> HeapRequestMaybeUninit<Args, R> {
    /// Reserve a request buffer.
    pub fn new() -> (r: HeapRequestMaybeUninit<Args, R>) {
        HeapRequestMaybeUninit { marker: core::marker::PhantomData }
    }

    /// Write the arguments into the buffer and mark it initialized.
    pub fn write(self, args: Args) -> (r: HeapRequestMut<Args, R>)
        ensures
            r.spec_args() == args,
    {
        HeapRequestMut { args, marker: core::marker::PhantomData }
    }
}

/// A request with written arguments, ready to execute.
#[derive(Debug)]
pub struct HeapRequestMut<Args, R> {
    args: Args,
    marker: core::marker::PhantomData<R>,
}

impl<Args, R> HeapRequestMut<Args, R> {
    /// The arguments this request carries.
    pub closed spec fn spec_args(&self) -> Args {
        self.args
    }

    /// Read the arguments.
    pub fn args(&self) -> (r: &Args)
        ensures
            r == self.spec_args(),
    {
        &self.args
    }

    /// Append the request to the remote procedure's pending queue and
    /// hand back the pending handle for its result.
    ///
    /// Rejected with `QueueFull` (leaving the state unchanged) when the
    /// pending queue is at its bound.
    pub fn execute(self, rpc: &mut HeapRemoteProcedure<Args, R>) -> (r: ComResult<
        HeapPendingRequest<Args, R>,
    >)
        requires
            old(rpc).inv(),
            old(rpc).spec_records().len() < usize::MAX,
        ensures
            final(rpc).inv(),
            old(rpc).same_config(final(rpc)),
            final(rpc).spec_invokers() == old(rpc).spec_invokers(),
            final(rpc).spec_invokees() == old(rpc).spec_invokees(),
            old(rpc).spec_pending().len() < old(rpc).spec_max_queue_depth() ==> {
                &&& r matches Ok(p) && p.spec_tx() == old(rpc).spec_records().len()
                &&& final(rpc).spec_records() == old(rpc).spec_records().push(
                    spec_fresh_record(self.spec_args()),
                )
                &&& final(rpc).spec_pending() == old(rpc).spec_pending().push(
                    old(rpc).spec_records().len() as usize,
                )
            },
            old(rpc).spec_pending().len() >= old(rpc).spec_max_queue_depth() ==> {
                &&& r matches Err(e) && e == ComError::QueueFull
                &&& final(rpc).spec_records() == old(rpc).spec_records()
                &&& final(rpc).spec_pending() == old(rpc).spec_pending()
            },
    {
        match rpc.core.execute(self.args) {
            Ok(tx) => Ok(HeapPendingRequest { tx, marker: core::marker::PhantomData }),
            Err(e) => Err(e),
        }
    }
}

/// The client-side handle to a transaction whose result may not yet be
/// ready.  Its transaction key correlates it with the service's answer.
#[derive(Debug)]
pub struct HeapPendingRequest<Args, R> {
    tx: usize,
    marker: core::marker::PhantomData<(Args, R)>,
}

impl<Args, R> HeapPendingRequest<Args, R> {
    /// The correlation key of this request's transaction.
    pub closed spec fn spec_tx(&self) -> usize {
        self.tx
    }

    /// The correlation key of this request's transaction.
    pub fn transaction_id(&self) -> (r: usize)
        ensures
            r == self.spec_tx(),
    {
        self.tx
    }
}

impl<Args: Copy, R: Copy> HeapPendingRequest<Args, R> {
    /// Check for the result and consume it if present.
    ///
    /// Reports `ResponseConsumed` if the result was read before, hands
    /// out the result if it is ready, and returns `None` while the
    /// service has not responded.
    pub fn try_receive(&self, rpc: &mut HeapRemoteProcedure<Args, R>) -> (r: ComResult<
        Option<HeapResponse<R>>,
    >)
        requires
            old(rpc).inv(),
            self.spec_tx() < old(rpc).spec_records().len(),
        ensures
            final(rpc).inv(),
            old(rpc).same_config(final(rpc)),
            final(rpc).spec_pending() == old(rpc).spec_pending(),
            ({
                let rec = old(rpc).spec_records()[self.spec_tx() as int];
                &&& spec_take_result(rec) matches Ok(o) ==> {
                    &&& o matches Some(v) ==> r matches Ok(ro) && ro matches Some(resp)
                        && resp.spec_value() == v
                    &&& o matches None ==> r matches Ok(ro) && ro matches None
                }
                &&& spec_take_result(rec) matches Err(e) ==> r matches Err(e2) && e2 == e
                &&& final(rpc).spec_records() == if rec.result matches Some(_)
                    && !rec.result_consumed {
                    spec_mark_consumed(old(rpc).spec_records(), self.spec_tx() as int)
                } else {
                    old(rpc).spec_records()
                }
            }),
    {
        match rpc.core.try_take_result(self.tx) {
            Ok(Some(v)) => Ok(Some(HeapResponse { value: v })),
            Ok(None) => Ok(None),
            Err(e) => Err(e),
        }
    }

    /// Wait for the result and consume it.
    ///
    /// A second receive on the same pending request reports
    /// `ResponseConsumed`.  Blocking semantics demand the result be ready
    /// when the call is made: the sole owner of the state could otherwise
    /// wait forever, since no concurrent service can respond during the
    /// call.
    pub fn receive(&self, rpc: &mut HeapRemoteProcedure<Args, R>) -> (r: ComResult<HeapResponse<R>>)
        requires
            old(rpc).inv(),
            self.spec_tx() < old(rpc).spec_records().len(),
            old(rpc).spec_records()[self.spec_tx() as int].result_consumed || old(
                rpc,
            ).spec_records()[self.spec_tx() as int].result matches Some(_),
        ensures
            final(rpc).inv(),
            old(rpc).same_config(final(rpc)),
            final(rpc).spec_pending() == old(rpc).spec_pending(),
            old(rpc).spec_records()[self.spec_tx() as int].result_consumed ==> {
                &&& r matches Err(e) && e == ComError::ResponseConsumed
                &&& final(rpc).spec_records() == old(rpc).spec_records()
            },
            !old(rpc).spec_records()[self.spec_tx() as int].result_consumed ==> {
                &&& old(rpc).spec_records()[self.spec_tx() as int].result matches Some(v) && r
                    matches Ok(resp) && resp.spec_value() == v
                &&& final(rpc).spec_records() == spec_mark_consumed(
                    old(rpc).spec_records(),
                    self.spec_tx() as int,
                )
            },
    {
        match rpc.core.take_result(self.tx) {
            Ok(v) => Ok(HeapResponse { value: v }),
            Err(e) => Err(e),
        }
    }

    /// Wait for the result, giving up with `Timeout` after the deadline.
    ///
    /// A timed-out receive consumes nothing and leaves the pending queue
    /// and every transaction exactly as they were.
    pub fn receive_timeout(&self, rpc: &mut HeapRemoteProcedure<Args, R>, timeout_ms: u64) -> (r: ComResult<
        HeapResponse<R>,
    >)
        requires
            old(rpc).inv(),
            self.spec_tx() < old(rpc).spec_records().len(),
        ensures
            final(rpc).inv(),
            old(rpc).same_config(final(rpc)),
            final(rpc).spec_pending() == old(rpc).spec_pending(),
            ({
                let rec = old(rpc).spec_records()[self.spec_tx() as int];
                &&& rec.result_consumed ==> {
                    &&& r matches Err(e) && e == ComError::ResponseConsumed
                    &&& final(rpc).spec_records() == old(rpc).spec_records()
                }
                &&& !rec.result_consumed ==> {
                    &&& rec.result matches Some(v) ==> {
                        &&& r matches Ok(resp) && resp.spec_value() == v
                        &&& final(rpc).spec_records() == spec_mark_consumed(
                            old(rpc).spec_records(),
                            self.spec_tx() as int,
                        )
                    }
                    &&& rec.result matches None ==> {
                        &&& r matches Err(e) && e == ComError::Timeout
                        &&& final(rpc).spec_records() == old(rpc).spec_records()
                    }
                }
            }),
    {
        match rpc.core.take_result_timeout(self.tx, timeout_ms) {
            Ok(v) => Ok(HeapResponse { value: v }),
            Err(e) => Err(e),
        }
    }
}

/// The service-side view of a received request.
#[derive(Debug)]
pub struct HeapRequest<Args, R> {
    tx: usize,
    args: Args,
    marker: core::marker::PhantomData<R>,
}

impl<Args, R> HeapRequest<Args, R> {
    /// The correlation key of this request's transaction.
    pub closed spec fn spec_tx(&self) -> usize {
        self.tx
    }

    /// The arguments the client sent.
    pub closed spec fn spec_args(&self) -> Args {
        self.args
    }

    /// Read the arguments.
    pub fn args(&self) -> (r: &Args)
        ensures
            r == self.spec_args(),
    {
        &self.args
    }

    /// Reserve the response buffer for this request.
    pub fn loan_response_uninit(&self) -> (r: ComResult<HeapResponseMaybeUninit<R>>)
        ensures
            r matches Ok(m) && m.spec_tx() == self.spec_tx(),
    {
        Ok(HeapResponseMaybeUninit { tx: self.tx, marker: core::marker::PhantomData })
    }
}

/// A response buffer whose result slot is reserved but not yet written.
#[derive(Debug)]
pub struct HeapResponseMaybeUninit<R> {
    tx: usize,
    marker: core::marker::PhantomData<R>,
}

impl<R> HeapResponseMaybeUninit<R> {
    /// The correlation key of the transaction this response belongs to.
    pub closed spec fn spec_tx(&self) -> usize {
        self.tx
    }

    /// Write the result into the buffer and mark it initialized.
    pub fn write(self, value: R) -> (r: HeapResponseMut<R>)
        ensures
            r.spec_tx() == self.spec_tx(),
            r.spec_value() == value,
    {
        HeapResponseMut { tx: self.tx, value }
    }
}

/// A written response, ready to send back to the invoker.
#[derive(Debug)]
pub struct HeapResponseMut<R> {
    tx: usize,
    value: R,
}

impl<R> HeapResponseMut<R> {
    /// The correlation key of the transaction this response belongs to.
    pub closed spec fn spec_tx(&self) -> usize {
        self.tx
    }

    /// The result this response carries.
    pub closed spec fn spec_value(&self) -> R {
        self.value
    }

    /// Read the result.
    pub fn value(&self) -> (r: &R)
        ensures
            r == self.spec_value(),
    {
        &self.value
    }
}

impl<R: Copy> HeapResponseMut<R> {
    /// Store the result in the transaction and mark it ready for the
    /// invoker.
    ///
    /// Succeeds exactly on a transaction that a worker has received; any
    /// other key is rejected with `StateError` and changes nothing.
    pub fn send<Args: Copy>(self, rpc: &mut HeapRemoteProcedure<Args, R>) -> (r: ComResult<()>)
        requires
            old(rpc).inv(),
        ensures
            final(rpc).inv(),
            old(rpc).same_config(final(rpc)),
            final(rpc).spec_pending() == old(rpc).spec_pending(),
            self.spec_tx() < old(rpc).spec_records().len() && old(
                rpc,
            ).spec_records()[self.spec_tx() as int].received ==> {
                &&& r matches Ok(_)
                &&& final(rpc).spec_records() == spec_respond(
                    old(rpc).spec_records(),
                    self.spec_tx() as int,
                    self.spec_value(),
                )
            },
            !(self.spec_tx() < old(rpc).spec_records().len() && old(
                rpc,
            ).spec_records()[self.spec_tx() as int].received) ==> {
                &&& r matches Err(e) && e == ComError::StateError
                &&& final(rpc).spec_records() == old(rpc).spec_records()
            },
    {
        rpc.core.respond(self.tx, self.value)
    }
}

/// The immutable response handed to the invoker.
#[derive(Debug)]
pub struct HeapResponse<R> {
    value: R,
}

impl<R> HeapResponse<R> {
    /// The result this response carries.
    pub closed spec fn spec_value(&self) -> R {
        self.value
    }

    /// Read the result.
    pub fn value(&self) -> (r: &R)
        ensures
            r == self.spec_value(),
    {
        &self.value
    }

    /// Move the result out of the response.
    pub fn into_inner(self) -> (r: R)
        ensures
            r == self.spec_value(),
    {
        self.value
    }
}

/// The client-side handle of a remote procedure.
#[derive(Debug)]
pub struct HeapInvoker {}

impl HeapInvoker {
    /// Reserve an uninitialized request buffer.
    pub fn loan_uninit<Args, R>(&self) -> (r: ComResult<HeapRequestMaybeUninit<Args, R>>)
        ensures
            r matches Ok(_),
    {
        Ok(HeapRequestMaybeUninit::new())
    }

    /// Reserve a request buffer with the arguments already written.
    pub fn loan<Args, R>(&self, args: Args) -> (r: ComResult<HeapRequestMut<Args, R>>)
        ensures
            r matches Ok(m) && m.spec_args() == args,
    {
        Ok(HeapRequestMaybeUninit::new().write(args))
    }
}

/// The service-side handle of a remote procedure.
#[derive(Debug)]
pub struct HeapInvokee {}

impl HeapInvokee {
    /// Dequeue the oldest pending request, if any.
    pub fn try_accept<Args: Copy, R: Copy>(&self, rpc: &mut HeapRemoteProcedure<Args, R>) -> (r: ComResult<
        Option<HeapRequest<Args, R>>,
    >)
        requires
            old(rpc).inv(),
        ensures
            final(rpc).inv(),
            old(rpc).same_config(final(rpc)),
            old(rpc).spec_pending().len() == 0 ==> {
                &&& r matches Ok(o)
                &&& o matches None
                &&& final(rpc).spec_records() == old(rpc).spec_records()
                &&& final(rpc).spec_pending() == old(rpc).spec_pending()
            },
            old(rpc).spec_pending().len() > 0 ==> {
                &&& r matches Ok(o)
                &&& o matches Some(req)
                &&& req.spec_tx() == old(rpc).spec_pending()[0]
                &&& req.spec_args() == old(rpc).spec_records()[old(
                    rpc,
                ).spec_pending()[0] as int].args
                &&& final(rpc).spec_pending() == old(rpc).spec_pending().drop_first()
                &&& final(rpc).spec_records() == old(rpc).spec_records().update(
                    old(rpc).spec_pending()[0] as int,
                    TransactionRecord {
                        received: true,
                        ..old(rpc).spec_records()[old(rpc).spec_pending()[0] as int]
                    },
                )
            },
    {
        match rpc.core.try_receive() {
            Some((tx, args)) => Ok(
                Some(HeapRequest { tx, args, marker: core::marker::PhantomData }),
            ),
            None => Ok(None),
        }
    }

    /// Dequeue the oldest pending request.
    ///
    /// Blocking semantics demand a pending request be present when the
    /// call is made: the sole owner of the state could otherwise wait
    /// forever.
    pub fn accept<Args: Copy, R: Copy>(&self, rpc: &mut HeapRemoteProcedure<Args, R>) -> (r: ComResult<
        HeapRequest<Args, R>,
    >)
        requires
            old(rpc).inv(),
            old(rpc).spec_pending().len() > 0,
        ensures
            final(rpc).inv(),
            old(rpc).same_config(final(rpc)),
            r matches Ok(req) && req.spec_tx() == old(rpc).spec_pending()[0] && req.spec_args()
                == old(rpc).spec_records()[old(rpc).spec_pending()[0] as int].args,
            final(rpc).spec_pending() == old(rpc).spec_pending().drop_first(),
            final(rpc).spec_records() == old(rpc).spec_records().update(
                old(rpc).spec_pending()[0] as int,
                TransactionRecord {
                    received: true,
                    ..old(rpc).spec_records()[old(rpc).spec_pending()[0] as int]
                },
            ),
    {
        let p = rpc.core.receive();
        Ok(HeapRequest { tx: p.0, args: p.1, marker: core::marker::PhantomData })
    }

    /// Dequeue the oldest pending request, giving up with `Timeout`
    /// after the deadline.  A timed-out receive leaves the queue and
    /// every transaction exactly as they were.
    pub fn accept_timeout<Args: Copy, R: Copy>(
        &self,
        rpc: &mut HeapRemoteProcedure<Args, R>,
        timeout_ms: u64,
    ) -> (r: ComResult<HeapRequest<Args, R>>)
        requires
            old(rpc).inv(),
        ensures
            final(rpc).inv(),
            old(rpc).same_config(final(rpc)),
            old(rpc).spec_pending().len() == 0 ==> {
                &&& r matches Err(e) && e == ComError::Timeout
                &&& final(rpc).spec_records() == old(rpc).spec_records()
                &&& final(rpc).spec_pending() == old(rpc).spec_pending()
            },
            old(rpc).spec_pending().len() > 0 ==> {
                &&& r matches Ok(req) && req.spec_tx() == old(rpc).spec_pending()[0]
                    && req.spec_args() == old(rpc).spec_records()[old(
                    rpc,
                ).spec_pending()[0] as int].args
                &&& final(rpc).spec_pending() == old(rpc).spec_pending().drop_first()
            },
    {
        match rpc.core.receive_timeout(timeout_ms) {
            Ok(p) => Ok(HeapRequest { tx: p.0, args: p.1, marker: core::marker::PhantomData }),
            Err(e) => Err(e),
        }
    }

    /// Dequeue the oldest pending request, run the dispatcher on its
    /// arguments and store the result, all in one step.
    ///
    /// The stored result is exactly what the dispatcher computes for the
    /// dequeued request's arguments; every other transaction is left
    /// untouched.
    pub fn receive_and_execute<Args: Copy, R: Copy, F: Fn(Args) -> R>(
        &self,
        rpc: &mut HeapRemoteProcedure<Args, R>,
        f: F,
    ) -> (r: ComResult<()>)
        requires
            old(rpc).inv(),
            old(rpc).spec_pending().len() > 0,
            forall|a: Args| #[trigger] f.requires((a,)),
        ensures
            final(rpc).inv(),
            old(rpc).same_config(final(rpc)),
            r matches Ok(_),
            final(rpc).spec_pending() == old(rpc).spec_pending().drop_first(),
            final(rpc).spec_records().len() == old(rpc).spec_records().len(),
            ({
                let tx = old(rpc).spec_pending()[0] as int;
                let args = old(rpc).spec_records()[tx].args;
                &&& final(rpc).spec_records()[tx].result matches Some(res) && f.ensures(
                    (args,),
                    res,
                )
                &&& final(rpc).spec_records()[tx].received
                &&& final(rpc).spec_records()[tx].args == args
                &&& forall|i: int|
                    0 <= i < old(rpc).spec_records().len() && i != tx
                        ==> final(rpc).spec_records()[i] == old(rpc).spec_records()[i]
            }),
    {
        let p = rpc.core.receive();
        proof {
            assert(rpc.spec_records()[p.0 as int].received);
        }
        let res = f(p.1);
        match rpc.core.respond(p.0, res) {
            Ok(()) => Ok(()),
            Err(e) => Err(e),
        }
    }
}

/// The heap remote procedure: a transaction store with a bounded
/// pending queue, shared between invoker and invokee handles.
pub struct HeapRemoteProcedure<Args, R> {
    core: RpcCore<Args, R>,
}

impl<Args, R> HeapRemoteProcedure<Args, R> {
    /// Every transaction record, indexed by its correlation key.
    pub closed spec fn spec_records(&self) -> Seq<TransactionRecord<Args, R>> {
        self.core.spec_records()
    }

    /// The correlation keys of the pending transactions, oldest first.
    pub closed spec fn spec_pending(&self) -> Seq<usize> {
        self.core.spec_pending()
    }

    /// The configured bound of the pending queue.
    pub closed spec fn spec_max_queue_depth(&self) -> int {
        self.core.spec_max_queue_depth()
    }

    /// The configured bound on invoker handles.
    pub closed spec fn spec_max_invokers_client(&self) -> int {
        self.core.spec_max_invokers_client()
    }

    /// The configured bound on invokee handles.
    pub closed spec fn spec_max_invokers_service(&self) -> int {
        self.core.spec_max_invokers_service()
    }

    /// The number of invoker handles minted so far.
    pub closed spec fn spec_invokers(&self) -> int {
        self.core.spec_invokers()
    }

    /// The number of invokee handles minted so far.
    pub closed spec fn spec_invokees(&self) -> int {
        self.core.spec_invokees()
    }

    /// The remote-procedure invariant: its transaction store's invariant.
    pub closed spec fn inv(&self) -> bool {
        self.core.inv()
    }

    /// The configuration part of the state.
    pub open spec fn same_config(&self, other: &Self) -> bool {
        &&& self.spec_max_queue_depth() == other.spec_max_queue_depth()
        &&& self.spec_max_invokers_client() == other.spec_max_invokers_client()
        &&& self.spec_max_invokers_service() == other.spec_max_invokers_service()
    }

    /// Get an invoker (client) handle.
    ///
    /// Succeeds exactly while fewer than `max_invokers_client` invokers
    /// exist; the excess request is rejected with `FanError`.
    pub fn invoker(&mut self) -> (r: ComResult<HeapInvoker>)
        requires
            old(self).inv(),
        ensures
            final(self).inv(),
            old(self).same_config(final(self)),
            final(self).spec_records() == old(self).spec_records(),
            final(self).spec_pending() == old(self).spec_pending(),
            final(self).spec_invokees() == old(self).spec_invokees(),
            (r is Ok) <==> old(self).spec_invokers() < old(self).spec_max_invokers_client(),
            r matches Err(e) ==> e == ComError::FanError,
            r matches Ok(_) ==> final(self).spec_invokers() == old(self).spec_invokers() + 1,
            r matches Err(_) ==> final(self).spec_invokers() == old(self).spec_invokers(),
    {
        match self.core.add_invoker() {
            Ok(()) => Ok(HeapInvoker {}),
            Err(e) => Err(e),
        }
    }

    /// Get an invokee (service) handle.
    ///
    /// Succeeds exactly while fewer than `max_invokers_service` invokees
    /// exist; the excess request is rejected with `FanError`.
    pub fn invokee(&mut self) -> (r: ComResult<HeapInvokee>)
        requires
            old(self).inv(),
        ensures
            final(self).inv(),
            old(self).same_config(final(self)),
            final(self).spec_records() == old(self).spec_records(),
            final(self).spec_pending() == old(self).spec_pending(),
            final(self).spec_invokers() == old(self).spec_invokers(),
            (r is Ok) <==> old(self).spec_invokees() < old(self).spec_max_invokers_service(),
            r matches Err(e) ==> e == ComError::FanError,
            r matches Ok(_) ==> final(self).spec_invokees() == old(self).spec_invokees() + 1,
            r matches Err(_) ==> final(self).spec_invokees() == old(self).spec_invokees(),
    {
        match self.core.add_invokee() {
            Ok(()) => Ok(HeapInvokee {}),
            Err(e) => Err(e),
        }
    }

    /// How many requests are pending.
    pub fn pending_count(&self) -> (r: usize)
        ensures
            r == self.spec_pending().len(),
    {
        self.core.pending_count()
    }

    /// How many transactions were ever created.
    pub fn transaction_count(&self) -> (r: usize)
        ensures
            r == self.spec_records().len(),
    {
        self.core.transaction_count()
    }
}

/// The builder for a heap remote procedure.
#[derive(Debug)]
pub struct HeapRemoteProcedureBuilder<Args, R> {
    marker: core::marker::PhantomData<(Args, R)>,
    max_queue_depth: usize,
    max_invokers_client: usize,
    max_invokers_service: usize,
}

impl<Args, R> HeapRemoteProcedureBuilder<Args, R> {
    /// The configured bound of the pending queue.
    pub closed spec fn spec_max_queue_depth(&self) -> int {
        self.max_queue_depth as int
    }

    /// The configured bound on invoker handles.
    pub closed spec fn spec_max_invokers_client(&self) -> int {
        self.max_invokers_client as int
    }

    /// The configured bound on invokee handles.
    pub closed spec fn spec_max_invokers_service(&self) -> int {
        self.max_invokers_service as int
    }

    /// Create a builder with the default configuration: eight pending
    /// slots, one client invoker, eight service workers.
    pub fn new() -> (r: HeapRemoteProcedureBuilder<Args, R>)
        ensures
            r.spec_max_queue_depth() == 8,
            r.spec_max_invokers_client() == 1,
            r.spec_max_invokers_service() == 8,
    {
        HeapRemoteProcedureBuilder {
            marker: core::marker::PhantomData,
            max_queue_depth: 8,
            max_invokers_client: 1,
            max_invokers_service: 8,
        }
    }

    /// Set the bound of the pending queue.
    pub fn with_queue_depth(self, queue_depth: usize) -> (r: HeapRemoteProcedureBuilder<Args, R>)
        ensures
            r.spec_max_queue_depth() == queue_depth,
            r.spec_max_invokers_client() == self.spec_max_invokers_client(),
            r.spec_max_invokers_service() == self.spec_max_invokers_service(),
    {
        HeapRemoteProcedureBuilder { max_queue_depth: queue_depth, ..self }
    }

    /// Set the bound on invoker handles.
    pub fn with_max_invokers_client(self, fan_in: usize) -> (r: HeapRemoteProcedureBuilder<Args, R>)
        ensures
            r.spec_max_invokers_client() == fan_in,
            r.spec_max_queue_depth() == self.spec_max_queue_depth(),
            r.spec_max_invokers_service() == self.spec_max_invokers_service(),
    {
        HeapRemoteProcedureBuilder { max_invokers_client: fan_in, ..self }
    }

    /// Set the bound on invokee handles.
    pub fn with_max_invokers_service(self, fan_out: usize) -> (r: HeapRemoteProcedureBuilder<Args, R>)
        ensures
            r.spec_max_invokers_service() == fan_out,
            r.spec_max_queue_depth() == self.spec_max_queue_depth(),
            r.spec_max_invokers_client() == self.spec_max_invokers_client(),
    {
        HeapRemoteProcedureBuilder { max_invokers_service: fan_out, ..self }
    }

    /// Build the remote procedure.
    ///
    /// The configuration must be valid: a positive queue depth and
    /// positive invoker bounds.  The procedure starts with no
    /// transactions and no handles minted.
    pub fn build(self) -> (r: ComResult<HeapRemoteProcedure<Args, R>>)
        requires
            self.spec_max_queue_depth() >= 1,
            self.spec_max_invokers_client() >= 1,
            self.spec_max_invokers_service() >= 1,
        ensures
            r matches Ok(rpc) && {
                &&& rpc.inv()
                &&& rpc.spec_records() == Seq::<TransactionRecord<Args, R>>::empty()
                &&& rpc.spec_pending() == Seq::<usize>::empty()
                &&& rpc.spec_invokers() == 0
                &&& rpc.spec_invokees() == 0
                &&& rpc.spec_max_queue_depth() == self.spec_max_queue_depth()
                &&& rpc.spec_max_invokers_client() == self.spec_max_invokers_client()
                &&& rpc.spec_max_invokers_service() == self.spec_max_invokers_service()
            },
    {
        Ok(
            HeapRemoteProcedure {
                core: RpcCore::new(
                    self.max_queue_depth,
                    self.max_invokers_client,
                    self.max_invokers_service,
                ),
            },
        )
    }
}

} // verus!
