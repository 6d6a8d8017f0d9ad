use internal_events::common::{
    CollectionCompleted, ComponentEventsDropped, EndpointBytesReceived, EndpointBytesSent,
    RequestCompleted, StreamClosedError,
};
use internal_events::logging::{LogValue, Severity};
use internal_events::recording::RecordingSink;
use internal_events::upstream::{ClosedError, TimePoint};

fn labels(pairs: &[(&str, &str)]) -> Vec<(String, String)> {
    pairs.iter().map(|(k, v)| (k.to_string(), v.to_string())).collect()
}

#[test]
fn bytes_received_updates_only_its_counter() {
    let mut sink = RecordingSink::new();
    sink.dispatch(EndpointBytesReceived { byte_size: 128, protocol: "tcp", endpoint: "0.0.0.0:514" });
    let l = labels(&[("protocol", "tcp"), ("endpoint", "0.0.0.0:514")]);
    assert_eq!(sink.counter("component_received_bytes_total", &l), 128);
    assert_eq!(sink.counters_len(), 1);
    assert_eq!(sink.histograms_len(), 0);
    assert_eq!(sink.logs_len(), 1);
    let entry = sink.log_at(0);
    assert_eq!(entry.severity, Severity::Trace);
    assert_eq!(entry.message, "Bytes received.");
    assert_eq!(entry.fields[0], ("byte_size".to_string(), LogValue::Uint(128)));
    assert_eq!(entry.fields[1], ("protocol".to_string(), LogValue::Str("tcp".to_string())));
}

#[test]
fn bytes_sent_updates_its_counter() {
    let mut sink = RecordingSink::new();
    sink.dispatch(EndpointBytesSent { byte_size: 64, protocol: "udp", endpoint: "10.0.0.1:601" });
    let l = labels(&[("protocol", "udp"), ("endpoint", "10.0.0.1:601")]);
    assert_eq!(sink.counter("component_sent_bytes_total", &l), 64);
    assert_eq!(sink.counters_len(), 1);
    assert_eq!(sink.logs_len(), 1);
    assert_eq!(sink.log_at(0).message, "Bytes sent.");
}

#[test]
fn stream_closed_counts_error_and_drops() {
    let mut sink = RecordingSink::new();
    sink.dispatch(StreamClosedError { error: ClosedError {}, count: 5 });
    let error_labels = labels(&[
        ("error_code", "stream_closed"),
        ("error_type", "writer_failed"),
        ("stage", "sending"),
    ]);
    assert_eq!(sink.counter("component_errors_total", &error_labels), 1);
    let drop_labels = labels(&[("intentional", "false")]);
    assert_eq!(sink.counter("component_discarded_events_total", &drop_labels), 5);
    assert_eq!(sink.counters_len(), 2);
    assert_eq!(sink.logs_len(), 2);
    let first = sink.log_at(0);
    assert_eq!(first.severity, Severity::Error);
    assert_eq!(first.message, "Failed to forward event(s), downstream is closed.");
    let second = sink.log_at(1);
    assert_eq!(second.message, "Events dropped.");
    assert_eq!(second.fields[0], ("intentional".to_string(), LogValue::Bool(false)));
    assert_eq!(
        second.fields[1],
        ("reason".to_string(), LogValue::Str("Downstream is closed.".to_string()))
    );
}

#[test]
fn repeated_dispatch_accumulates_counter() {
    let mut sink = RecordingSink::new();
    for size in [10usize, 20, 30] {
        sink.dispatch(EndpointBytesReceived { byte_size: size, protocol: "tcp", endpoint: "e" });
    }
    let l = labels(&[("protocol", "tcp"), ("endpoint", "e")]);
    assert_eq!(sink.counter("component_received_bytes_total", &l), 60);
    assert_eq!(sink.counters_len(), 1);
    assert_eq!(sink.logs_len(), 3);
}

#[test]
fn counter_saturates_at_maximum() {
    let mut sink = RecordingSink::new();
    sink.dispatch(ComponentEventsDropped { count: u64::MAX, intentional: true, reason: "full" });
    sink.dispatch(ComponentEventsDropped { count: 5, intentional: true, reason: "full" });
    let l = labels(&[("intentional", "true")]);
    assert_eq!(sink.counter("component_discarded_events_total", &l), u64::MAX);
}

#[test]
fn request_completed_records_duration() {
    let mut sink = RecordingSink::new();
    sink.dispatch(RequestCompleted {
        start: TimePoint { nanos: 1_000_000_000 },
        end: TimePoint { nanos: 1_250_000_000 },
    });
    assert_eq!(sink.counter("requests_completed_total", &labels(&[])), 1);
    let observed = sink.histogram("request_duration_seconds", &labels(&[]));
    assert_eq!(observed, vec![250_000_000u64]);
    let seconds = observed[0] as f64 / 1e9;
    assert!((seconds - 0.25).abs() < 1e-12);
    assert_eq!(sink.log_at(0).message, "Request completed.");
    assert_eq!(sink.log_at(0).severity, Severity::Debug);
}

#[test]
fn collection_completed_records_duration() {
    let mut sink = RecordingSink::new();
    sink.dispatch(CollectionCompleted {
        start: TimePoint { nanos: 0 },
        end: TimePoint { nanos: 2_000_000_000 },
    });
    assert_eq!(sink.counter("collect_completed_total", &labels(&[])), 1);
    assert_eq!(sink.histogram("collect_duration_seconds", &labels(&[])), vec![2_000_000_000u64]);
    assert_eq!(sink.log_at(0).message, "Collection completed.");
}

#[test]
fn zero_length_duration_is_allowed() {
    let mut sink = RecordingSink::new();
    let t = TimePoint { nanos: 42 };
    sink.dispatch(RequestCompleted { start: t, end: t });
    assert_eq!(sink.histogram("request_duration_seconds", &labels(&[])), vec![0u64]);
}

#[test]
fn distinct_labels_are_distinct_counters() {
    let mut sink = RecordingSink::new();
    sink.dispatch(EndpointBytesReceived { byte_size: 1, protocol: "tcp", endpoint: "a" });
    sink.dispatch(EndpointBytesReceived { byte_size: 2, protocol: "tcp", endpoint: "b" });
    assert_eq!(
        sink.counter("component_received_bytes_total", &labels(&[("protocol", "tcp"), ("endpoint", "a")])),
        1
    );
    assert_eq!(
        sink.counter("component_received_bytes_total", &labels(&[("protocol", "tcp"), ("endpoint", "b")])),
        2
    );
    assert_eq!(sink.counters_len(), 2);
}

#[test]
fn untouched_counter_reads_zero() {
    let sink = RecordingSink::new();
    assert_eq!(sink.counter("component_errors_total", &labels(&[])), 0);
    assert_eq!(sink.histogram("request_duration_seconds", &labels(&[])), Vec::<u64>::new());
}
