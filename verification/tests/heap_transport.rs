use qor_com::adapter::localheap::HeapAdapter;
use qor_com::base::{ComError, QueuePolicy};
use qor_com::id::Label;

#[test]
fn test_heap_topic() {
    let adapter = HeapAdapter::new();
    let mut topic = adapter
        .topic_builder::<u32>(Label::invalid())
        .with_queue_depth(4)
        .build()
        .unwrap();

    let _publisher = topic.publisher().unwrap();
    let _subscriber = topic.subscriber().unwrap();

    let sample = topic.loan_with(42).unwrap();
    sample.publish(&mut topic).unwrap();

    let sample = topic.try_receive().unwrap();
    assert_eq!(sample.is_some(), true);
    let sample = sample.unwrap();
    assert_eq!(*sample.value(), 42);
}

#[test]
fn heap_topic_policies() {
    let adapter = HeapAdapter::new();
    let mut topic = adapter
        .topic_builder::<u32>(Label::invalid())
        .with_queue_depth(2)
        .with_queue_policy(QueuePolicy::OverwriteOldest)
        .build()
        .unwrap();

    for v in [10u32, 11, 12] {
        topic.loan_with(v).unwrap().publish(&mut topic).unwrap();
    }
    assert_eq!(*topic.receive().unwrap().value(), 11);
    assert_eq!(*topic.receive().unwrap().value(), 12);
    assert_eq!(topic.evicted_count(), 1);
    assert!(matches!(topic.receive_timeout(10), Err(ComError::Timeout)));
}

#[test]
fn heap_topic_reuse_buffer() {
    let adapter = HeapAdapter::new();
    let mut topic = adapter
        .topic_builder::<u32>(Label::invalid())
        .with_queue_depth(1)
        .build()
        .unwrap();

    topic.loan_uninit().unwrap().write(5).publish(&mut topic).unwrap();
    let buffer = topic.receive().unwrap();
    assert_eq!(*buffer.value(), 5);

    // a received buffer can be loaned again without copying the payload
    let again = topic.reuse(buffer).unwrap();
    again.publish(&mut topic).unwrap();
    assert_eq!(*topic.receive().unwrap().value(), 5);
}

#[test]
fn heap_signal_and_event() {
    let adapter = HeapAdapter::new();
    let mut signal = adapter.signal_builder(Label::invalid()).build().unwrap();
    signal.notify();
    assert_eq!(signal.check(), Ok(true));
    assert_eq!(signal.check_and_reset(), Ok(true));
    assert_eq!(signal.check(), Ok(false));
    assert!(matches!(signal.wait_timeout(10), Err(ComError::Timeout)));

    let mut event = adapter.event_builder(Label::invalid()).build().unwrap();
    event.notify();
    assert_eq!(event.wait_timeout(10), Ok(true));
    assert_eq!(event.check_and_reset(), Ok(true));
    assert_eq!(event.check_and_reset(), Ok(false));
}

#[test]
fn heap_rpc_round_trip() {
    let adapter = HeapAdapter::new();
    let mut rpc = adapter.rpc_builder::<u32, bool>(Label::invalid()).build().unwrap();

    let invoker = rpc.invoker().unwrap();
    let invokee = rpc.invokee().unwrap();

    let pending = invoker.loan(42u32).unwrap().execute(&mut rpc).unwrap();
    let request = invokee.accept(&mut rpc).unwrap();
    assert_eq!(*request.args(), 42);
    request
        .loan_response_uninit()
        .unwrap()
        .write(false)
        .send(&mut rpc)
        .unwrap();
    assert_eq!(*pending.receive(&mut rpc).unwrap().value(), false);
}
