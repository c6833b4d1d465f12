use mavlink_debugger::msg::MessageHeader;
use mavlink_debugger::msg::Severity;
use mavlink_debugger::msg::TelemetryMessage;
use mavlink_debugger::msg::parse_severity;
use mavlink_debugger::subscriber::ReadOutcome;
use mavlink_debugger::subscriber::SubscriberAction;
use mavlink_debugger::subscriber::collect_telemetry_events;
use mavlink_debugger::subscriber::subscriber_step;

fn frame(id: u32) -> ReadOutcome {
    let header = MessageHeader { system_id: 1, component_id: 1, sequence: 0 };
    ReadOutcome::Frame(header, TelemetryMessage::Other(id))
}

#[test]
fn decode_failures_never_stop_the_reader() {
    // [valid, malformed, valid] produces exactly 2 telemetry events and
    // does not terminate the reader loop
    let outcomes = vec![frame(1), ReadOutcome::DecodeFailure, frame(2)];
    let (events, stopped) = collect_telemetry_events(&outcomes);
    assert_eq!(events.len(), 2);
    assert_eq!(events[0].1, TelemetryMessage::Other(1));
    assert_eq!(events[1].1, TelemetryMessage::Other(2));
    assert!(!stopped);
}

#[test]
fn fatal_errors_stop_the_reader() {
    let outcomes = vec![frame(1), ReadOutcome::Fatal, frame(2)];
    let (events, stopped) = collect_telemetry_events(&outcomes);
    assert_eq!(events.len(), 1);
    assert!(stopped);
}

#[test]
fn transient_empty_reads_are_waited_out() {
    let outcomes = vec![ReadOutcome::TransientEmpty, frame(4)];
    let (events, stopped) = collect_telemetry_events(&outcomes);
    assert_eq!(events.len(), 1);
    assert!(!stopped);
}

#[test]
fn step_decides_per_outcome() {
    assert!(matches!(subscriber_step(frame(9)), SubscriberAction::Forward(_, _)));
    assert_eq!(subscriber_step(ReadOutcome::TransientEmpty), SubscriberAction::Sleep);
    assert_eq!(subscriber_step(ReadOutcome::Fatal), SubscriberAction::Stop);
    assert_eq!(subscriber_step(ReadOutcome::DecodeFailure), SubscriberAction::Ignore);
}

#[test]
fn severity_labels() {
    assert_eq!(parse_severity(Severity::Emergency), "EMERGENCY".to_string());
    assert_eq!(parse_severity(Severity::Alert), "ALERT".to_string());
    assert_eq!(parse_severity(Severity::Critical), "CRITICAL".to_string());
    assert_eq!(parse_severity(Severity::Error), "ERROR".to_string());
    assert_eq!(parse_severity(Severity::Warning), "WARNING".to_string());
    assert_eq!(parse_severity(Severity::Notice), "NOTICE".to_string());
    assert_eq!(parse_severity(Severity::Info), "INFO".to_string());
    assert_eq!(parse_severity(Severity::Debug), "DEBUG".to_string());
}
