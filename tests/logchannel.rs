use auraed_logs::{Closed, LogChannel, LogItem, DEFAULT_CAPACITY, UNKNOWN_CHANNEL};
use crossbeam::channel::{RecvError, TrySendError};

fn item(line: &str) -> LogItem {
    LogItem { channel: "test".to_string(), line: line.to_string(), timestamp: 7 }
}

#[test]
fn test_ringbuffer_queue() {
    let lrb = LogChannel::new("Test");
    let prod = lrb.get_producer();

    LogChannel::log_line(prod.clone(), "hello");
    LogChannel::log_line(prod.clone(), "aurae");
    LogChannel::log_line(prod.clone(), "bye");

    let consumer = lrb.get_consumer();

    let cur_item = LogChannel::consume_line(consumer.clone());
    assert!(cur_item.is_some());
    assert_eq!(cur_item.unwrap().line, "hello");

    let cur_item = LogChannel::consume_line(consumer.clone());
    assert!(cur_item.is_some());
    assert_eq!(cur_item.unwrap().line, "aurae");

    let cur_item = LogChannel::consume_line(consumer.clone());
    assert!(cur_item.is_some());
    assert_eq!(cur_item.unwrap().line, "bye");
}

#[test]
fn new_collector_is_named_and_bounded() {
    let lrb = LogChannel::new("Test");
    assert_eq!(lrb.name, "Test");
    assert_eq!(lrb.capacity(), DEFAULT_CAPACITY);
    assert_eq!(lrb.capacity(), 40);
    assert_eq!(lrb.pending(), 0);
}

#[test]
fn full_collector_refuses_one_more_until_a_receive() {
    let lrb = LogChannel::with_capacity("small", 3);
    assert_eq!(lrb.capacity(), 3);
    let prod = lrb.get_producer();
    for line in ["a", "b", "c"] {
        assert_eq!(LogChannel::send(&prod, item(line)), Ok(()));
    }
    assert_eq!(lrb.pending(), 3);
    match prod.try_send(item("d")) {
        Err(TrySendError::Full(back)) => assert_eq!(back.line, "d"),
        other => panic!("expected a full collector, got {:?}", other),
    }
    assert_eq!(lrb.pending(), 3);
    let first = LogChannel::receive(&lrb.get_consumer()).unwrap();
    assert_eq!(first.line, "a");
    assert_eq!(lrb.pending(), 2);
    assert!(prod.try_send(item("d")).is_ok());
    assert_eq!(lrb.pending(), 3);
}

#[test]
fn fifo_order_from_one_producer() {
    let lrb = LogChannel::with_capacity("fifo", 8);
    let prod = lrb.get_producer();
    for line in ["hello", "aurae", "bye"] {
        assert_eq!(LogChannel::send(&prod, item(line)), Ok(()));
    }
    let consumer = lrb.get_consumer();
    let lines: Vec<String> =
        (0..3).map(|_| LogChannel::receive(&consumer).unwrap().line).collect();
    assert_eq!(lines, vec!["hello", "aurae", "bye"]);
}

#[test]
fn receive_fails_closed_once_producers_are_released() {
    let lrb = LogChannel::new("closing");
    let consumer = lrb.get_consumer();
    let prod = lrb.get_producer();
    LogChannel::log_line(prod, "last words");
    drop(lrb);
    assert_eq!(LogChannel::consume_line(consumer.clone()).unwrap().line, "last words");
    assert_eq!(LogChannel::receive(&consumer), Err(Closed));
    assert!(LogChannel::consume_line(consumer).is_none());
}

#[test]
fn send_fails_closed_once_consumers_are_released() {
    let lrb = LogChannel::new("gone");
    let prod = lrb.get_producer();
    drop(lrb);
    assert_eq!(LogChannel::send(&prod, item("lost")), Err(Closed));
    LogChannel::log_line(prod, "also lost");
}

#[test]
fn line_event_is_unattributed() {
    let e = LogChannel::line_event("hello", 42);
    assert_eq!(e.channel, "unknown");
    assert_eq!(e.channel, UNKNOWN_CHANNEL);
    assert_eq!(e.line, "hello");
    assert_eq!(e.timestamp, 42);
}

#[test]
fn log_line_stamps_current_time() {
    let lrb = LogChannel::new("clock");
    LogChannel::log_line(lrb.get_producer(), "tick");
    let e = LogChannel::consume_line(lrb.get_consumer()).unwrap();
    assert_eq!(e.channel, "unknown");
    assert!(e.timestamp > 1_600_000_000);
}

#[test]
fn outcomes_map_to_closed() {
    assert_eq!(auraed_logs::channel::recv_outcome(Err(RecvError)), Err(Closed));
    assert_eq!(auraed_logs::channel::recv_outcome(Ok(item("x"))), Ok(item("x")));
    assert_eq!(auraed_logs::channel::send_outcome(Ok(())), Ok(()));
    let err = crossbeam::channel::SendError(item("y"));
    assert_eq!(auraed_logs::channel::send_outcome(Err(err)), Err(Closed));
}

#[test]
fn item_constructor_copies_fields() {
    let e = LogItem::new("stdout", "line one", 9);
    assert_eq!(e, LogItem { channel: "stdout".to_string(), line: "line one".to_string(), timestamp: 9 });
}

#[test]
fn consume_outcome_maps_receive() {
    assert_eq!(LogChannel::consume_outcome(Ok(item("x"))), Some(item("x")));
    assert_eq!(LogChannel::consume_outcome(Err(Closed)), None);
}

#[test]
fn handles_share_the_collector_channel() {
    let lrb = LogChannel::new("shared");
    let prod = lrb.get_producer();
    let cons = lrb.get_consumer();
    assert!(prod.same_channel(&lrb.producer));
    assert!(cons.same_channel(&lrb.consumer));
    assert!(LogChannel::get_consumer_of(&cons).same_channel(&lrb.consumer));
    let other = LogChannel::new("shared");
    assert!(!prod.same_channel(&other.producer));
    LogChannel::send(&prod, item("through the clone")).unwrap();
    assert_eq!(LogChannel::receive(&lrb.consumer).unwrap().line, "through the clone");
    LogChannel::send(&lrb.producer, item("into the original")).unwrap();
    assert_eq!(LogChannel::receive(&cons).unwrap().line, "into the original");
}
