//! The shared event kinds: byte-transfer events, completion events, the
//! closed-stream error, and the drop notification that other events derive.

use vstd::prelude::*;

use crate::event::{Emission, EmissionModel, InternalEvent};
use crate::logging::{
    field_bool, field_str, field_uint, LogEntry, LogEntryModel, LogValue, LogValueModel, Severity,
};
use crate::metric::{counter_update, histogram_update, label, MetricUpdate, MetricUpdateModel};
use crate::taxonomy::{ErrorType, Stage};
use crate::upstream::{ClosedError, TimePoint};

verus! {

/// A batch of occurrences that did not reach their destination: how many,
/// whether the loss was deliberate filtering or failure-induced, and why.
/// Emitted synchronously within the dispatch that discovered the loss.
#[derive(Debug)]
pub struct ComponentEventsDropped {
    pub count: u64,
    pub intentional: bool,
    pub reason: &'static str,
}

/// Mathematical model of a [`ComponentEventsDropped`].
#[verifier::ext_equal]
pub struct DroppedModel {
    pub count: u64,
    pub intentional: bool,
    pub reason: Seq<char>,
}

impl View for ComponentEventsDropped {
    type V = DroppedModel;

    open spec fn view(&self) -> DroppedModel {
        DroppedModel { count: self.count, intentional: self.intentional, reason: self.reason@ }
    }
}

impl DeepView for ComponentEventsDropped {
    type V = DroppedModel;

    open spec fn deep_view(&self) -> DroppedModel {
        self.view()
    }
}

/// The exact emission of a drop notification: one error-level log entry and
/// one increment of `component_discarded_events_total{intentional}` by the
/// full dropped count. It derives no further event.
pub open spec fn dropped_emission(d: DroppedModel) -> EmissionModel {
    EmissionModel {
        log: LogEntryModel {
            severity: Severity::Error,
            message: "Events dropped."@,
            fields: seq![
                ("intentional"@, LogValueModel::Bool(d.intentional)),
                ("reason"@, LogValueModel::Str(d.reason)),
            ],
        },
        metrics: seq![
            MetricUpdateModel::Counter {
                name: "component_discarded_events_total"@,
                labels: seq![("intentional"@, if d.intentional { "true"@ } else { "false"@ })],
                delta: d.count,
            },
        ],
        derived: None,
    }
}

impl InternalEvent for ComponentEventsDropped {
    open spec fn wf(&self) -> bool {
        true
    }

    open spec fn emits(&self, e: EmissionModel) -> bool {
        e == dropped_emission(self@)
    }

    fn effects(self) -> (e: Emission) {
        let mut fields: Vec<(String, LogValue)> = Vec::new();
        fields.push(field_bool("intentional", self.intentional));
        fields.push(field_str("reason", self.reason));
        let log = LogEntry {
            severity: Severity::Error,
            message: "Events dropped.".to_owned(),
            fields,
        };
        let mut labels: Vec<(String, String)> = Vec::new();
        labels.push(label("intentional", if self.intentional { "true" } else { "false" }));
        let mut updates: Vec<MetricUpdate> = Vec::new();
        updates.push(counter_update("component_discarded_events_total", labels, self.count));
        let e = Emission { log, metrics: updates, derived: None };
        proof {
            assert(e@ =~~= dropped_emission(self@));
        }
        e
    }
}

/// Bytes received over a connection, with the protocol and the peer endpoint
/// as bounded labels.
#[derive(Debug)]
pub struct EndpointBytesReceived<'a> {
    pub byte_size: usize,
    pub protocol: &'a str,
    pub endpoint: &'a str,
}

impl EndpointBytesReceived<'_> {
    /// The exact emission: one trace-level log entry and one increment of
    /// `component_received_bytes_total{protocol,endpoint}` by `byte_size`.
    pub open spec fn emission(&self) -> EmissionModel {
        EmissionModel {
            log: LogEntryModel {
                severity: Severity::Trace,
                message: "Bytes received."@,
                fields: seq![
                    ("byte_size"@, LogValueModel::Uint(self.byte_size as u64)),
                    ("protocol"@, LogValueModel::Str(self.protocol@)),
                    ("endpoint"@, LogValueModel::Str(self.endpoint@)),
                ],
            },
            metrics: seq![
                MetricUpdateModel::Counter {
                    name: "component_received_bytes_total"@,
                    labels: seq![("protocol"@, self.protocol@), ("endpoint"@, self.endpoint@)],
                    delta: self.byte_size as u64,
                },
            ],
            derived: None,
        }
    }
}

impl<'a> InternalEvent for EndpointBytesReceived<'a> {
    open spec fn wf(&self) -> bool {
        true
    }

    open spec fn emits(&self, e: EmissionModel) -> bool {
        e == self.emission()
    }

    fn effects(self) -> (e: Emission) {
        let mut fields: Vec<(String, LogValue)> = Vec::new();
        fields.push(field_uint("byte_size", self.byte_size as u64));
        fields.push(field_str("protocol", self.protocol));
        fields.push(field_str("endpoint", self.endpoint));
        let log = LogEntry {
            severity: Severity::Trace,
            message: "Bytes received.".to_owned(),
            fields,
        };
        let mut labels: Vec<(String, String)> = Vec::new();
        labels.push(label("protocol", self.protocol));
        labels.push(label("endpoint", self.endpoint));
        let mut updates: Vec<MetricUpdate> = Vec::new();
        updates.push(counter_update(
            "component_received_bytes_total",
            labels,
            self.byte_size as u64,
        ));
        let e = Emission { log, metrics: updates, derived: None };
        proof {
            assert(e@ =~~= self.emission());
        }
        e
    }
}

/// Bytes sent over a connection, with the protocol and the peer endpoint as
/// bounded labels.
#[derive(Debug)]
pub struct EndpointBytesSent<'a> {
    pub byte_size: usize,
    pub protocol: &'a str,
    pub endpoint: &'a str,
}

impl EndpointBytesSent<'_> {
    /// The exact emission: one trace-level log entry and one increment of
    /// `component_sent_bytes_total{protocol,endpoint}` by `byte_size`.
    pub open spec fn emission(&self) -> EmissionModel {
        EmissionModel {
            log: LogEntryModel {
                severity: Severity::Trace,
                message: "Bytes sent."@,
                fields: seq![
                    ("byte_size"@, LogValueModel::Uint(self.byte_size as u64)),
                    ("protocol"@, LogValueModel::Str(self.protocol@)),
                    ("endpoint"@, LogValueModel::Str(self.endpoint@)),
                ],
            },
            metrics: seq![
                MetricUpdateModel::Counter {
                    name: "component_sent_bytes_total"@,
                    labels: seq![("protocol"@, self.protocol@), ("endpoint"@, self.endpoint@)],
                    delta: self.byte_size as u64,
                },
            ],
            derived: None,
        }
    }
}

impl<'a> InternalEvent for EndpointBytesSent<'a> {
    open spec fn wf(&self) -> bool {
        true
    }

    open spec fn emits(&self, e: EmissionModel) -> bool {
        e == self.emission()
    }

    fn effects(self) -> (e: Emission) {
        let mut fields: Vec<(String, LogValue)> = Vec::new();
        fields.push(field_uint("byte_size", self.byte_size as u64));
        fields.push(field_str("protocol", self.protocol));
        fields.push(field_str("endpoint", self.endpoint));
        let log = LogEntry {
            severity: Severity::Trace,
            message: "Bytes sent.".to_owned(),
            fields,
        };
        let mut labels: Vec<(String, String)> = Vec::new();
        labels.push(label("protocol", self.protocol));
        labels.push(label("endpoint", self.endpoint));
        let mut updates: Vec<MetricUpdate> = Vec::new();
        updates.push(counter_update("component_sent_bytes_total", labels, self.byte_size as u64));
        let e = Emission { log, metrics: updates, derived: None };
        proof {
            assert(e@ =~~= self.emission());
        }
        e
    }
}

/// Failure to forward events because the downstream side of the inter-stage
/// channel has closed. Sending stage, writer failure; additionally derives a
/// drop notification covering the batch that failed to forward.
#[derive(Debug)]
pub struct StreamClosedError {
    pub error: ClosedError,
    pub count: usize,
}

impl StreamClosedError {
    /// The exact emission: one error-level log entry carrying the registry
    /// pair (sending, writer failed) with error code `stream_closed`, one
    /// increment of `component_errors_total` by 1 under those labels, and a
    /// derived unintentional drop notification for `count` events.
    pub open spec fn emission(&self) -> EmissionModel {
        EmissionModel {
            log: LogEntryModel {
                severity: Severity::Error,
                message: "Failed to forward event(s), downstream is closed."@,
                fields: seq![
                    ("error_code"@, LogValueModel::Str("stream_closed"@)),
                    ("error_type"@, LogValueModel::Str(ErrorType::WriterFailed.spec_label())),
                    ("stage"@, LogValueModel::Str(Stage::Sending.spec_label())),
                ],
            },
            metrics: seq![
                MetricUpdateModel::Counter {
                    name: "component_errors_total"@,
                    labels: seq![
                        ("error_code"@, "stream_closed"@),
                        ("error_type"@, ErrorType::WriterFailed.spec_label()),
                        ("stage"@, Stage::Sending.spec_label()),
                    ],
                    delta: 1,
                },
            ],
            derived: Some(
                DroppedModel {
                    count: self.count as u64,
                    intentional: false,
                    reason: "Downstream is closed."@,
                },
            ),
        }
    }
}

impl InternalEvent for StreamClosedError {
    open spec fn wf(&self) -> bool {
        true
    }

    open spec fn emits(&self, e: EmissionModel) -> bool {
        e == self.emission()
    }

    fn effects(self) -> (e: Emission) {
        let mut fields: Vec<(String, LogValue)> = Vec::new();
        fields.push(field_str("error_code", "stream_closed"));
        fields.push(field_str("error_type", ErrorType::WriterFailed.label()));
        fields.push(field_str("stage", Stage::Sending.label()));
        let log = LogEntry {
            severity: Severity::Error,
            message: "Failed to forward event(s), downstream is closed.".to_owned(),
            fields,
        };
        let mut labels: Vec<(String, String)> = Vec::new();
        labels.push(label("error_code", "stream_closed"));
        labels.push(label("error_type", ErrorType::WriterFailed.label()));
        labels.push(label("stage", Stage::Sending.label()));
        let mut updates: Vec<MetricUpdate> = Vec::new();
        updates.push(counter_update("component_errors_total", labels, 1));
        let derived = ComponentEventsDropped {
            count: self.count as u64,
            intentional: false,
            reason: "Downstream is closed.",
        };
        let e = Emission { log, metrics: updates, derived: Some(derived) };
        proof {
            assert(e@ =~~= self.emission());
        }
        e
    }
}

/// One completed request, timed by two monotonic-clock readings.
#[derive(Debug)]
pub struct RequestCompleted {
    pub start: TimePoint,
    pub end: TimePoint,
}

impl RequestCompleted {
    /// The exact emission: one debug-level log entry, one increment of
    /// `requests_completed_total` by 1, and one `request_duration_seconds`
    /// observation of the span between the two clock readings.
    pub open spec fn emission(&self) -> EmissionModel {
        EmissionModel {
            log: LogEntryModel {
                severity: Severity::Debug,
                message: "Request completed."@,
                fields: Seq::empty(),
            },
            metrics: seq![
                MetricUpdateModel::Counter {
                    name: "requests_completed_total"@,
                    labels: Seq::empty(),
                    delta: 1,
                },
                MetricUpdateModel::Histogram {
                    name: "request_duration_seconds"@,
                    labels: Seq::empty(),
                    nanos: (self.end.nanos - self.start.nanos) as u64,
                },
            ],
            derived: None,
        }
    }
}

impl InternalEvent for RequestCompleted {
    /// The end reading must not precede the start reading; a violation is a
    /// defect in the caller.
    open spec fn wf(&self) -> bool {
        self.start.nanos <= self.end.nanos
    }

    open spec fn emits(&self, e: EmissionModel) -> bool {
        e == self.emission()
    }

    fn effects(self) -> (e: Emission) {
        let log = LogEntry {
            severity: Severity::Debug,
            message: "Request completed.".to_owned(),
            fields: Vec::new(),
        };
        let mut updates: Vec<MetricUpdate> = Vec::new();
        updates.push(counter_update("requests_completed_total", Vec::new(), 1));
        updates.push(histogram_update(
            "request_duration_seconds",
            Vec::new(),
            self.end.nanos - self.start.nanos,
        ));
        let e = Emission { log, metrics: updates, derived: None };
        proof {
            assert(e@ =~~= self.emission());
        }
        e
    }
}

/// One completed collection pass, timed by two monotonic-clock readings.
#[derive(Debug)]
pub struct CollectionCompleted {
    pub start: TimePoint,
    pub end: TimePoint,
}

impl CollectionCompleted {
    /// The exact emission: one debug-level log entry, one increment of
    /// `collect_completed_total` by 1, and one `collect_duration_seconds`
    /// observation of the span between the two clock readings.
    pub open spec fn emission(&self) -> EmissionModel {
        EmissionModel {
            log: LogEntryModel {
                severity: Severity::Debug,
                message: "Collection completed."@,
                fields: Seq::empty(),
            },
            metrics: seq![
                MetricUpdateModel::Counter {
                    name: "collect_completed_total"@,
                    labels: Seq::empty(),
                    delta: 1,
                },
                MetricUpdateModel::Histogram {
                    name: "collect_duration_seconds"@,
                    labels: Seq::empty(),
                    nanos: (self.end.nanos - self.start.nanos) as u64,
                },
            ],
            derived: None,
        }
    }
}

impl InternalEvent for CollectionCompleted {
    /// The end reading must not precede the start reading; a violation is a
    /// defect in the caller.
    open spec fn wf(&self) -> bool {
        self.start.nanos <= self.end.nanos
    }

    open spec fn emits(&self, e: EmissionModel) -> bool {
        e == self.emission()
    }

    fn effects(self) -> (e: Emission) {
        let log = LogEntry {
            severity: Severity::Debug,
            message: "Collection completed.".to_owned(),
            fields: Vec::new(),
        };
        let mut updates: Vec<MetricUpdate> = Vec::new();
        updates.push(counter_update("collect_completed_total", Vec::new(), 1));
        updates.push(histogram_update(
            "collect_duration_seconds",
            Vec::new(),
            self.end.nanos - self.start.nanos,
        ));
        let e = Emission { log, metrics: updates, derived: None };
        proof {
            assert(e@ =~~= self.emission());
        }
        e
    }
}

} // verus!
