use auraed_logs::{format_record, LogChannel, LogLevel, StreamLogger, DIAGNOSTICS_CHANNEL};

#[test]
fn record_line_format() {
    assert_eq!(format_record(LogLevel::Info, "auraed::observe", "started"), "INFO:auraed::observe -- started");
    assert_eq!(format_record(LogLevel::Error, "", ""), "ERROR: -- ");
}

#[test]
fn level_names() {
    assert_eq!(LogLevel::Error.as_str(), "ERROR");
    assert_eq!(LogLevel::Warn.as_str(), "WARN");
    assert_eq!(LogLevel::Info.as_str(), "INFO");
    assert_eq!(LogLevel::Debug.as_str(), "DEBUG");
    assert_eq!(LogLevel::Trace.as_str(), "TRACE");
}

#[test]
fn record_event_fields() {
    let e = StreamLogger::record_event(LogLevel::Debug, "src", "x = 1", 5);
    assert_eq!(e.channel, "rust-logs");
    assert_eq!(e.channel, DIAGNOSTICS_CHANNEL);
    assert_eq!(e.line, "DEBUG:src -- x = 1");
    assert_eq!(e.timestamp, 5);
}

#[test]
fn sink_sends_every_level() {
    let lrb = LogChannel::new("diag");
    let sink = StreamLogger::new(lrb.get_producer());
    assert!(sink.enabled(LogLevel::Trace));
    assert!(sink.enabled(LogLevel::Error));
    sink.log(LogLevel::Warn, "disk", "low space");
    sink.log(LogLevel::Trace, "net", "poll");
    sink.flush();
    let c = lrb.get_consumer();
    let first = LogChannel::consume_line(c.clone()).unwrap();
    assert_eq!(first.channel, "rust-logs");
    assert_eq!(first.line, "WARN:disk -- low space");
    assert!(first.timestamp > 1_600_000_000);
    assert_eq!(LogChannel::consume_line(c).unwrap().line, "TRACE:net -- poll");
}

#[test]
fn sink_on_closed_collector_returns() {
    let lrb = LogChannel::new("diag");
    let sink = StreamLogger::new(lrb.get_producer());
    drop(lrb);
    sink.log(LogLevel::Error, "shutdown", "nobody listens");
}

#[test]
fn sink_on_full_collector_without_consumer_returns() {
    let lrb = LogChannel::with_capacity("diag", 2);
    let sink = StreamLogger::new(lrb.get_producer());
    sink.log(LogLevel::Info, "a", "one");
    sink.log(LogLevel::Info, "a", "two");
    assert_eq!(lrb.pending(), 2);
    drop(lrb);
    sink.log(LogLevel::Info, "a", "three");
}
