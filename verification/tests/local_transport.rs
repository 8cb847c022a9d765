use qor_com::adapter::local::Local;
use qor_com::base::{ComError, QueuePolicy};
use qor_com::id::Label;

#[test]
fn test_local_topic() {
    let adapter = Local::new();
    let mut topic = adapter
        .topic_builder::<u32>(Label::invalid())
        .with_queue_depth(4)
        .build()
        .unwrap();

    let publisher = topic.publisher().unwrap();
    let subscriber = topic.subscriber().unwrap();

    let sample = publisher.loan(42).unwrap();
    sample.publish(&mut topic).unwrap();

    let sample = subscriber.try_receive(&mut topic).unwrap();
    assert_eq!(sample.is_some(), true);
    let sample = sample.unwrap();
    assert_eq!(*sample.value(), 42);
}

#[test]
fn single_slot_topic_in_order_delivery() {
    // queue depth 4, ErrorOnFull: [0,1,2,3] arrives as [0,1,2,3]
    let adapter = Local::new();
    let mut topic = adapter
        .topic_builder::<u32>(Label::invalid())
        .with_queue_depth(4)
        .with_queue_policy(QueuePolicy::ErrorOnFull)
        .build()
        .unwrap();
    let publisher = topic.publisher().unwrap();
    let subscriber = topic.subscriber().unwrap();

    for i in 0..4u32 {
        publisher.publish(&mut topic, i).unwrap();
    }
    for i in 0..4u32 {
        let sample = subscriber.receive(&mut topic).unwrap();
        assert_eq!(*sample.value(), i);
    }
}

#[test]
fn signal_round_trip() {
    // emit, then a timed wait observes the signal; check-and-reset
    // observes it once
    let adapter = Local::new();
    let mut signal = adapter.signal_builder(Label::invalid()).build().unwrap();

    signal.emit();
    assert_eq!(signal.wait_timeout(1000), Ok(true));
    assert_eq!(signal.check_and_reset(), Ok(true));
    assert_eq!(signal.check_and_reset(), Ok(false));
}

#[test]
fn signal_level_trigger() {
    let adapter = Local::new();
    let mut signal = adapter.signal_builder(Label::invalid()).build().unwrap();

    assert_eq!(signal.check(), Ok(false));
    signal.emit();
    assert_eq!(signal.check(), Ok(true));
    // a second emission collapses into the same level
    signal.emit();
    assert_eq!(signal.check(), Ok(true));
    assert_eq!(signal.check_and_reset(), Ok(true));
    assert_eq!(signal.check(), Ok(false));
    assert_eq!(signal.wait_timeout(10), Err(ComError::Timeout));
}

#[test]
fn overwrite_oldest_policy() {
    // queue depth 2, OverwriteOldest: [10,11,12] delivers [11,12],
    // one sample evicted
    let adapter = Local::new();
    let mut topic = adapter
        .topic_builder::<u32>(Label::invalid())
        .with_queue_depth(2)
        .with_queue_policy(QueuePolicy::OverwriteOldest)
        .build()
        .unwrap();
    let publisher = topic.publisher().unwrap();
    let subscriber = topic.subscriber().unwrap();

    for v in [10u32, 11, 12] {
        publisher.publish(&mut topic, v).unwrap();
    }
    assert_eq!(*subscriber.receive(&mut topic).unwrap().value(), 11);
    assert_eq!(*subscriber.receive(&mut topic).unwrap().value(), 12);
    assert_eq!(topic.evicted_count(), 1);
}

#[test]
fn overwrite_newest_policy_reports_success() {
    let adapter = Local::new();
    let mut topic = adapter
        .topic_builder::<u32>(Label::invalid())
        .with_queue_depth(1)
        .with_queue_policy(QueuePolicy::OverwriteNewest)
        .build()
        .unwrap();
    let publisher = topic.publisher().unwrap();
    let subscriber = topic.subscriber().unwrap();

    publisher.publish(&mut topic, 1).unwrap();
    // the incoming sample is dropped, yet the publish succeeds
    publisher.publish(&mut topic, 2).unwrap();
    assert_eq!(topic.evicted_count(), 1);
    assert_eq!(*subscriber.receive(&mut topic).unwrap().value(), 1);
}

#[test]
fn error_on_full_rejects() {
    let adapter = Local::new();
    let mut topic = adapter
        .topic_builder::<u32>(Label::invalid())
        .with_queue_depth(1)
        .build()
        .unwrap();
    let publisher = topic.publisher().unwrap();

    publisher.publish(&mut topic, 7).unwrap();
    assert_eq!(publisher.publish(&mut topic, 8), Err(ComError::QueueFull));
    assert_eq!(topic.current_depth(), 1);
}

#[test]
fn fan_error_on_excess_subscriber() {
    // max_fan_out 1: the first subscriber succeeds, the second is
    // rejected
    let adapter = Local::new();
    let mut topic = adapter
        .topic_builder::<u32>(Label::invalid())
        .with_max_fan_out(1)
        .build()
        .unwrap();
    assert!(topic.subscriber().is_ok());
    assert!(matches!(topic.subscriber(), Err(ComError::FanError)));
}

#[test]
fn fan_error_on_excess_publisher() {
    let adapter = Local::new();
    let mut topic = adapter
        .topic_builder::<u32>(Label::invalid())
        .with_max_fan_in(2)
        .build()
        .unwrap();
    assert!(topic.publisher().is_ok());
    assert!(topic.publisher().is_ok());
    assert!(matches!(topic.publisher(), Err(ComError::FanError)));
}

#[test]
fn timed_out_receive_is_pure() {
    // a timed-out receive leaves the queue and all counters unchanged
    let adapter = Local::new();
    let mut topic = adapter
        .topic_builder::<u32>(Label::invalid())
        .with_queue_depth(4)
        .build()
        .unwrap();
    let publisher = topic.publisher().unwrap();
    let subscriber = topic.subscriber().unwrap();

    publisher.publish(&mut topic, 5).unwrap();
    assert_eq!(*subscriber.receive(&mut topic).unwrap().value(), 5);
    let before = (
        topic.current_depth(),
        topic.published_count(),
        topic.delivered_count(),
        topic.evicted_count(),
    );
    assert!(matches!(
        subscriber.receive_timeout(&mut topic, 50),
        Err(ComError::Timeout)
    ));
    let after = (
        topic.current_depth(),
        topic.published_count(),
        topic.delivered_count(),
        topic.evicted_count(),
    );
    assert_eq!(before, after);
}

#[test]
fn loss_accounting_holds_at_quiescence() {
    // published - delivered - current_depth = evicted
    let adapter = Local::new();
    let mut topic = adapter
        .topic_builder::<u32>(Label::invalid())
        .with_queue_depth(2)
        .with_queue_policy(QueuePolicy::OverwriteOldest)
        .build()
        .unwrap();
    let publisher = topic.publisher().unwrap();
    let subscriber = topic.subscriber().unwrap();

    for v in 0..5u32 {
        publisher.publish(&mut topic, v).unwrap();
        let published = topic.published_count();
        let delivered = topic.delivered_count();
        let depth = topic.current_depth() as u64;
        assert_eq!(published - delivered - depth, topic.evicted_count());
    }
    let _ = subscriber.try_receive(&mut topic).unwrap();
    let published = topic.published_count();
    let delivered = topic.delivered_count();
    let depth = topic.current_depth() as u64;
    assert_eq!(published - delivered - depth, topic.evicted_count());
}

#[test]
fn sample_lifecycle_loan_write_send() {
    // loan -> write(v) -> send delivers a sample that reads back v
    let adapter = Local::new();
    let mut topic = adapter
        .topic_builder::<u64>(Label::invalid())
        .with_queue_depth(1)
        .build()
        .unwrap();
    let publisher = topic.publisher().unwrap();
    let subscriber = topic.subscriber().unwrap();

    let sample = publisher.loan_uninit().unwrap();
    let sample = sample.write(0xdeadbeefu64);
    sample.publish(&mut topic).unwrap();
    let got = subscriber.receive(&mut topic).unwrap();
    assert_eq!(*got.value(), 0xdeadbeefu64);
}
