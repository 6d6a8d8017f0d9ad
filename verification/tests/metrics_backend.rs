//! Dispatching through the process-wide metrics registry: install the
//! `metrics` crate's debugging recorder and check that the dispatcher's
//! deliveries land there with the declared names, labels and values.

use internal_events::common::{EndpointBytesReceived, RequestCompleted, StreamClosedError};
use internal_events::emit;
use internal_events::upstream::{ClosedError, TimePoint};
use metrics_util::debugging::{DebugValue, DebuggingRecorder, Snapshotter};
use metrics_util::{CompositeKey, MetricKind};

fn counter_of(
    entries: &[(CompositeKey, Option<metrics::Unit>, Option<metrics::SharedString>, DebugValue)],
    name: &str,
    labels: &[(&str, &str)],
) -> Option<u64> {
    for (ck, _, _, value) in entries {
        if ck.kind() != MetricKind::Counter || ck.key().name() != name {
            continue;
        }
        let found: Vec<(&str, &str)> = ck.key().labels().map(|l| (l.key(), l.value())).collect();
        if found == labels {
            if let DebugValue::Counter(v) = value {
                return Some(*v);
            }
        }
    }
    None
}

#[test]
fn dispatch_reaches_installed_recorder() {
    let recorder = DebuggingRecorder::per_thread();
    let _ = recorder.install();

    emit(EndpointBytesReceived { byte_size: 128, protocol: "tcp", endpoint: "0.0.0.0:514" });
    emit(StreamClosedError { error: ClosedError {}, count: 5 });
    emit(RequestCompleted {
        start: TimePoint { nanos: 0 },
        end: TimePoint { nanos: 250_000_000 },
    });

    let snapshot = Snapshotter::current_thread_snapshot().expect("metrics were emitted");
    let entries = snapshot.into_vec();

    assert_eq!(
        counter_of(
            &entries,
            "component_received_bytes_total",
            &[("protocol", "tcp"), ("endpoint", "0.0.0.0:514")],
        ),
        Some(128)
    );
    assert_eq!(
        counter_of(
            &entries,
            "component_errors_total",
            &[
                ("error_code", "stream_closed"),
                ("error_type", "writer_failed"),
                ("stage", "sending"),
            ],
        ),
        Some(1)
    );
    assert_eq!(
        counter_of(&entries, "component_discarded_events_total", &[("intentional", "false")]),
        Some(5)
    );
    assert_eq!(counter_of(&entries, "requests_completed_total", &[]), Some(1));

    let duration = entries
        .iter()
        .find(|(ck, _, _, _)| {
            ck.kind() == MetricKind::Histogram && ck.key().name() == "request_duration_seconds"
        })
        .map(|(_, _, _, v)| v)
        .expect("the duration histogram was recorded");
    match duration {
        DebugValue::Histogram(values) => {
            assert_eq!(values.len(), 1);
            let seconds: f64 = values[0].0;
            assert!((seconds - 0.25).abs() < 1e-9);
        }
        other => panic!("not a histogram: {other:?}"),
    }
}
