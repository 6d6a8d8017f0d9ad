use internal_events::journald::{
    JournaldCheckpointFileOpenError, JournaldCheckpointSetError, JournaldInvalidRecordError,
    JournaldReadError, JournaldStartJournalctlError,
};
use internal_events::logging::{LogValue, Severity};
use internal_events::recording::RecordingSink;
use internal_events::upstream::{FramingError, UpstreamError};

fn labels(pairs: &[(&str, &str)]) -> Vec<(String, String)> {
    pairs.iter().map(|(k, v)| (k.to_string(), v.to_string())).collect()
}

fn field<'a>(entry: &'a internal_events::logging::LogEntry, name: &str) -> &'a LogValue {
    &entry
        .fields
        .iter()
        .find(|(k, _)| k == name)
        .unwrap_or_else(|| panic!("missing field {name}"))
        .1
}

#[test]
fn invalid_record_counts_and_logs_registry_pair() {
    let parse_error = serde_json::from_str::<serde_json::Value>("not json").unwrap_err();
    let mut sink = RecordingSink::new();
    sink.dispatch(JournaldInvalidRecordError { error: parse_error, text: "bad".to_string() });
    let l = labels(&[("stage", "processing"), ("error_type", "parser_failed")]);
    assert_eq!(sink.counter("component_errors_total", &l), 1);
    assert_eq!(sink.counter("invalid_record_total", &labels(&[])), 1);
    assert_eq!(sink.counter("invalid_record_bytes_total", &labels(&[])), 3);
    assert_eq!(sink.counters_len(), 3);
    assert_eq!(sink.logs_len(), 1);
    let entry = sink.log_at(0);
    assert_eq!(entry.severity, Severity::Error);
    assert_eq!(entry.message, "Invalid record from journald, discarding.");
    assert_eq!(field(entry, "stage"), &LogValue::Str("processing".to_string()));
    assert_eq!(field(entry, "error_type"), &LogValue::Str("parser_failed".to_string()));
    assert_eq!(field(entry, "text"), &LogValue::Str("bad".to_string()));
    match field(entry, "error") {
        LogValue::Str(s) => assert!(!s.is_empty()),
        other => panic!("error field is not a string: {other:?}"),
    }
}

#[test]
fn start_journalctl_error_counts_and_logs_registry_pair() {
    let mut sink = RecordingSink::new();
    sink.dispatch(JournaldStartJournalctlError {
        error: UpstreamError { message: "no such command".to_string() },
    });
    let l = labels(&[("stage", "receiving"), ("error_type", "command_failed")]);
    assert_eq!(sink.counter("component_errors_total", &l), 1);
    assert_eq!(sink.counters_len(), 1);
    let entry = sink.log_at(0);
    assert_eq!(entry.severity, Severity::Error);
    assert_eq!(entry.message, "Error starting journalctl process.");
    assert_eq!(field(entry, "error"), &LogValue::Str("no such command".to_string()));
    assert_eq!(field(entry, "stage"), &LogValue::Str("receiving".to_string()));
}

#[test]
fn read_error_counts_and_logs_registry_pair() {
    let mut sink = RecordingSink::new();
    sink.dispatch(JournaldReadError {
        error: FramingError { message: "frame too long".to_string() },
    });
    let l = labels(&[("stage", "processing"), ("error_type", "reader_failed")]);
    assert_eq!(sink.counter("component_errors_total", &l), 1);
    let entry = sink.log_at(0);
    assert_eq!(entry.message, "Could not read from journald.");
    assert_eq!(field(entry, "error"), &LogValue::Str("frame too long".to_string()));
    assert_eq!(field(entry, "error_type"), &LogValue::Str("reader_failed".to_string()));
}

#[test]
fn checkpoint_set_error_counts_and_logs_registry_pair() {
    let io_error = std::io::Error::new(std::io::ErrorKind::PermissionDenied, "denied");
    let mut sink = RecordingSink::new();
    sink.dispatch(JournaldCheckpointSetError {
        error: io_error,
        filename: "checkpoint".to_string(),
    });
    let l = labels(&[("stage", "processing"), ("error_type", "io_failed")]);
    assert_eq!(sink.counter("component_errors_total", &l), 1);
    let entry = sink.log_at(0);
    assert_eq!(entry.message, "Could not set journald checkpoint.");
    assert_eq!(field(entry, "filename"), &LogValue::Str("checkpoint".to_string()));
    assert_eq!(field(entry, "error"), &LogValue::Str("denied".to_string()));
}

#[test]
fn checkpoint_open_error_counts_and_logs_registry_pair() {
    let io_error = std::io::Error::new(std::io::ErrorKind::NotFound, "missing");
    let mut sink = RecordingSink::new();
    sink.dispatch(JournaldCheckpointFileOpenError {
        error: io_error,
        path: "/var/lib/checkpoint".to_string(),
    });
    let l = labels(&[("stage", "receiving"), ("error_type", "io_failed")]);
    assert_eq!(sink.counter("component_errors_total", &l), 1);
    let entry = sink.log_at(0);
    assert_eq!(entry.message, "Unable to open checkpoint file.");
    assert_eq!(field(entry, "path"), &LogValue::Str("/var/lib/checkpoint".to_string()));
    assert_eq!(field(entry, "error"), &LogValue::Str("missing".to_string()));
}

#[test]
fn same_registry_pair_shares_one_counter() {
    let mut sink = RecordingSink::new();
    sink.dispatch(JournaldCheckpointSetError {
        error: std::io::Error::new(std::io::ErrorKind::Other, "a"),
        filename: "f".to_string(),
    });
    sink.dispatch(JournaldCheckpointSetError {
        error: std::io::Error::new(std::io::ErrorKind::Other, "b"),
        filename: "f".to_string(),
    });
    let l = labels(&[("stage", "processing"), ("error_type", "io_failed")]);
    assert_eq!(sink.counter("component_errors_total", &l), 2);
    assert_eq!(sink.logs_len(), 2);
}
