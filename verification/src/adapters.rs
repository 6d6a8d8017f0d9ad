//! Sink adapters: the narrow, trusted boundary to the process-wide metrics
//! registry (the `metrics` crate's installed recorder), to the structured log
//! stream, and to the rendering of opaque upstream error values. Everything
//! above this boundary is verified; each item here relies on the named
//! outside function and nothing more. Delivery is best effort: none of these
//! calls can fail or panic, matching the event descriptor contract.

use vstd::prelude::*;

use crate::logging::LogEntry;
use std::io::Write;

verus! {

#[verifier::external_type_specification]
#[verifier::external_body]
pub struct ExJsonError(serde_json::Error);

#[verifier::external_type_specification]
#[verifier::external_body]
pub struct ExIoError(std::io::Error);

/// Relies on `metrics::recorder`, `metrics::Recorder::register_counter` and
/// `metrics::Counter::increment`: registers the named, labeled monotonic
/// counter with the installed recorder (a no-op recorder when none is
/// installed) and adds `delta` to it. Never panics.
#[verifier::external_body]
pub(crate) fn counter_add(name: &str, labels: &Vec<(String, String)>, delta: u64) {
    let key = metrics::Key::from_parts(name.to_owned(), labels);
    metrics::recorder().register_counter(&key).increment(delta);
}

/// Relies on `metrics::recorder`, `metrics::Recorder::register_histogram` and
/// `metrics::Histogram::record`: registers the named, labeled histogram with
/// the installed recorder (a no-op recorder when none is installed) and
/// records one observation of the given duration, which the `metrics` crate
/// converts to seconds. Never panics.
#[verifier::external_body]
pub(crate) fn histogram_record(name: &str, labels: &Vec<(String, String)>, nanos: u64) {
    let key = metrics::Key::from_parts(name.to_owned(), labels);
    metrics::recorder().register_histogram(&key).record(core::time::Duration::from_nanos(nanos));
}

/// Relies on `std::io::Stderr::write_fmt` (through `writeln!`): writes the
/// entry to the process log stream, ignoring any write error (best-effort
/// delivery; the sink absorbs failures, never the event's own logic).
#[verifier::external_body]
pub(crate) fn log_write(entry: &LogEntry) {
    let _ = writeln!(std::io::stderr(), "{:?}", entry);
}

/// Relies on `serde_json::Error`'s `Debug` implementation: renders the
/// parse-failure detail for the log entry. Nothing is assumed of the text.
#[verifier::external_body]
pub(crate) fn json_error_text(error: &serde_json::Error) -> (r: String) {
    format!("{:?}", error)
}

/// Relies on `std::io::Error`'s `Display` implementation: renders the I/O
/// failure detail for the log entry. Nothing is assumed of the text.
#[verifier::external_body]
pub(crate) fn io_error_text(error: &std::io::Error) -> (r: String) {
    format!("{}", error)
}

} // verus!
