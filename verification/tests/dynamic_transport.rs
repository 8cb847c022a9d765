use qor_com::adapter::dynamic::{Dynamic, DynamicNew};
use qor_com::adapter::local::Local;
use qor_com::adapter::localheap::HeapAdapter;
use qor_com::base::ComError;
use qor_com::id::Label;

#[test]
fn test_dynamic_event() {
    let adapter = Dynamic::new(Local::new());
    let mut topic = adapter
        .topic_builder::<u32>(Label::invalid())
        .with_queue_depth(4)
        .build()
        .unwrap();

    let publisher = topic.publisher().unwrap();
    let subscriber = topic.subscriber().unwrap();

    let sample = publisher.loan(42).unwrap();
    sample.publish(&mut topic).unwrap();

    let sample = subscriber.try_receive(&mut topic).unwrap();
    assert_eq!(sample.is_some(), true);
    let sample = sample.unwrap();
    assert_eq!(*sample.value(), 42);
}

#[test]
fn dynamic_event_over_heap() {
    let adapter = Dynamic::new(HeapAdapter::new());
    let mut topic = adapter
        .topic_builder::<u32>(Label::invalid())
        .with_queue_depth(2)
        .build()
        .unwrap();

    let publisher = topic.publisher().unwrap();
    let subscriber = topic.subscriber().unwrap();

    publisher.publish(&mut topic, 1).unwrap();
    publisher.publish(&mut topic, 2).unwrap();
    assert!(matches!(
        publisher.publish(&mut topic, 3),
        Err(ComError::QueueFull)
    ));
    assert_eq!(*subscriber.receive(&mut topic).unwrap().value(), 1);
    assert_eq!(*subscriber.receive(&mut topic).unwrap().value(), 2);
    assert!(matches!(
        subscriber.receive_timeout(&mut topic, 10),
        Err(ComError::Timeout)
    ));
}

#[test]
fn dynamic_signal_round_trip() {
    let adapter = Dynamic::new(Local::new());
    let mut signal = adapter.signal_builder(Label::invalid()).build().unwrap();
    let _emitter = signal.emitter().unwrap();
    let _collector = signal.collector().unwrap();

    signal.emit();
    assert_eq!(signal.wait_timeout(1000), Ok(true));
    assert_eq!(signal.check_and_reset(), Ok(true));
    assert_eq!(signal.check_and_reset(), Ok(false));
}

#[test]
fn dynamic_sample_lifecycle() {
    let adapter = Dynamic::new(Local::new());
    let mut topic = adapter
        .topic_builder::<u64>(Label::invalid())
        .with_queue_depth(1)
        .build()
        .unwrap();
    let publisher = topic.publisher().unwrap();
    let subscriber = topic.subscriber().unwrap();

    let sample = publisher.loan_uninit().unwrap();
    let mut sample = sample.write(7u64);
    sample.write(8u64);
    sample.publish(&mut topic).unwrap();
    let got = subscriber.receive(&mut topic).unwrap();
    assert_eq!(got.into_inner(), 8u64);
}
