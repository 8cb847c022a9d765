use qor_com::adapter::local::Local;
use qor_com::base::ComError;
use qor_com::id::Label;
use qor_com::transact::RpcCore;

#[test]
fn rpc_echo() {
    // remote procedure (u32) -> bool; the dispatcher computes x > 42
    let adapter = Local::new();
    let mut rpc = adapter.rpc_builder::<u32, bool>(Label::invalid()).build().unwrap();

    let invoker = rpc.invoker().unwrap();
    let invoked = rpc.invoked().unwrap();

    let request = invoker.loan(42u32).unwrap();
    let pending = request.execute(&mut rpc).unwrap();
    invoked.receive_and_execute(&mut rpc, |value: u32| value > 42).unwrap();
    let response = pending.receive(&mut rpc).unwrap();
    assert_eq!(*response.value(), false);

    let request = invoker.loan(43u32).unwrap();
    let pending = request.execute(&mut rpc).unwrap();
    invoked.receive_and_execute(&mut rpc, |value: u32| value > 42).unwrap();
    let response = pending.receive(&mut rpc).unwrap();
    assert_eq!(*response.value(), true);
}

#[test]
fn pending_double_read() {
    // the first receive yields the value; the second reports
    // ResponseConsumed
    let adapter = Local::new();
    let mut rpc = adapter.rpc_builder::<u32, u32>(Label::invalid()).build().unwrap();

    let invoker = rpc.invoker().unwrap();
    let invoked = rpc.invoked().unwrap();

    let pending = invoker.loan(5u32).unwrap().execute(&mut rpc).unwrap();
    invoked.receive_and_execute(&mut rpc, |value: u32| value + 1).unwrap();

    let response = pending.receive(&mut rpc).unwrap();
    assert_eq!(*response.value(), 6);
    assert!(matches!(
        pending.receive(&mut rpc),
        Err(ComError::ResponseConsumed)
    ));
}

#[test]
fn rpc_correlation_two_invocations() {
    // two invocations with distinct arguments each receive exactly the
    // result computed for their own arguments
    let adapter = Local::new();
    let mut rpc = adapter
        .rpc_builder::<u32, u32>(Label::invalid())
        .with_max_invokers_client(2)
        .build()
        .unwrap();

    let invoker_a = rpc.invoker().unwrap();
    let invoker_b = rpc.invoker().unwrap();
    let invoked = rpc.invoked().unwrap();

    let pending_a = invoker_a.loan(10u32).unwrap().execute(&mut rpc).unwrap();
    let pending_b = invoker_b.loan(20u32).unwrap().execute(&mut rpc).unwrap();
    assert_ne!(pending_a.transaction_id(), pending_b.transaction_id());

    invoked.receive_and_execute(&mut rpc, |value: u32| value * 2).unwrap();
    invoked.receive_and_execute(&mut rpc, |value: u32| value * 2).unwrap();

    assert_eq!(*pending_b.receive(&mut rpc).unwrap().value(), 40);
    assert_eq!(*pending_a.receive(&mut rpc).unwrap().value(), 20);
}

#[test]
fn rpc_manual_response_path() {
    // the explicit path: receive, loan the response, write, send
    let adapter = Local::new();
    let mut rpc = adapter.rpc_builder::<u32, u32>(Label::invalid()).build().unwrap();

    let invoker = rpc.invoker().unwrap();
    let invoked = rpc.invoked().unwrap();

    let pending = invoker.loan_uninit().unwrap().write(9u32).execute(&mut rpc).unwrap();

    let request = invoked.receive(&mut rpc).unwrap();
    assert_eq!(*request.args(), 9);
    let response = request.loan_response_uninit().unwrap().write(81u32);
    response.send(&mut rpc).unwrap();

    let got = pending.try_receive(&mut rpc).unwrap();
    assert_eq!(*got.unwrap().value(), 81);
}

#[test]
fn rpc_try_receive_before_response() {
    let adapter = Local::new();
    let mut rpc = adapter.rpc_builder::<u32, u32>(Label::invalid()).build().unwrap();

    let invoker = rpc.invoker().unwrap();
    let pending = invoker.loan(1u32).unwrap().execute(&mut rpc).unwrap();

    // no service has responded yet
    assert!(pending.try_receive(&mut rpc).unwrap().is_none());
    // a timed receive gives up without consuming anything
    assert!(matches!(
        pending.receive_timeout(&mut rpc, 10),
        Err(ComError::Timeout)
    ));
    assert!(pending.try_receive(&mut rpc).unwrap().is_none());
}

#[test]
fn rpc_queue_full() {
    let adapter = Local::new();
    let mut rpc = adapter
        .rpc_builder::<u32, u32>(Label::invalid())
        .with_queue_depth(1)
        .build()
        .unwrap();

    let invoker = rpc.invoker().unwrap();
    let _pending = invoker.loan(1u32).unwrap().execute(&mut rpc).unwrap();
    let second = invoker.loan(2u32).unwrap();
    assert!(matches!(second.execute(&mut rpc), Err(ComError::QueueFull)));
}

#[test]
fn rpc_fan_bounds() {
    let adapter = Local::new();
    let mut rpc = adapter
        .rpc_builder::<u32, u32>(Label::invalid())
        .with_max_invokers_client(1)
        .with_max_invokers_service(1)
        .build()
        .unwrap();

    assert!(rpc.invoker().is_ok());
    assert!(matches!(rpc.invoker(), Err(ComError::FanError)));
    assert!(rpc.invoked().is_ok());
    assert!(matches!(rpc.invoked(), Err(ComError::FanError)));
}

#[test]
fn rpc_timed_out_receive_is_pure() {
    // a timed-out service receive leaves the pending queue unchanged
    let adapter = Local::new();
    let mut rpc = adapter.rpc_builder::<u32, u32>(Label::invalid()).build().unwrap();

    let invoked = rpc.invoked().unwrap();
    assert_eq!(rpc.pending_count(), 0);
    assert!(matches!(
        invoked.receive_timeout(&mut rpc, 10),
        Err(ComError::Timeout)
    ));
    assert_eq!(rpc.pending_count(), 0);

    let invoker = rpc.invoker().unwrap();
    let _pending = invoker.loan(3u32).unwrap().execute(&mut rpc).unwrap();
    assert_eq!(rpc.pending_count(), 1);
}

#[test]
fn rpc_state_error_on_unknown_transaction() {
    // responding to a transaction no worker has received is rejected
    let mut core: RpcCore<u32, u32> = RpcCore::new(4, 1, 1);
    assert!(matches!(core.respond(0, 7), Err(ComError::StateError)));
    assert!(matches!(core.take_result_timeout(9, 10), Err(ComError::StateError)));
}

#[test]
fn test_local_rpc() {
    let adapter = Local::new();

    // a remote procedure for a function signature fn(u32) -> bool
    let mut rpc = adapter.rpc_builder::<u32, bool>(Label::invalid()).build().unwrap();

    // the client for the remote procedure
    let invoker = rpc.invoker().unwrap();

    // the service of the remote procedure
    let invoked = rpc.invoked().unwrap();

    // client: invoke with an argument
    let request = invoker.loan(42u32).unwrap();
    let pending = request.execute(&mut rpc).unwrap();

    // service: process the invocation
    invoked.receive_and_execute(&mut rpc, |value: u32| value > 42).unwrap();

    // client: wait for the result
    let response = pending.receive(&mut rpc).unwrap();
    let result = *response.value();

    println!("Result: {:?}", result);
}
