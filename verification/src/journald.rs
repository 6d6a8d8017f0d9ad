//! Event kinds for a journal-reading log-collection source: each of its
//! failure modes maps to exactly one (stage, type) pair from the shared
//! taxonomy, logs its component-specific diagnostic fields, and bumps the
//! generic error counter — the pattern every component-specific error set
//! must follow. Diagnostic text goes only to the log entry, never into metric
//! labels, so label cardinality stays bounded.

use vstd::prelude::*;

use crate::adapters;
use crate::event::{Emission, EmissionModel, InternalEvent};
use crate::logging::{field_str, field_string, LogEntry, LogEntryModel, LogValue, LogValueModel,
    Severity};
use crate::metric::{counter_update, label, MetricUpdate, MetricUpdateModel};
use crate::taxonomy::{ErrorType, Stage};
use crate::upstream::{FramingError, UpstreamError};
use vstd::utf8::encode_utf8;

verus! {

/// A record from the journal could not be parsed; the record is discarded.
/// Processing stage, parser failure. Carries the parse error and the raw
/// record text as diagnostic log fields.
#[derive(Debug)]
pub struct JournaldInvalidRecordError {
    pub error: serde_json::Error,
    pub text: String,
}

impl JournaldInvalidRecordError {
    /// The byte length of the discarded record text.
    pub open spec fn text_byte_len(&self) -> u64 {
        encode_utf8(self.text@).len() as usize as u64
    }

    /// The emission, given the rendered text of the opaque parse error: one
    /// error-level log entry carrying the registry pair (processing, parser
    /// failed), one increment of `component_errors_total` by 1 under those
    /// labels, and the two deprecated per-record counters retained for
    /// compatibility.
    pub open spec fn emission_with(&self, error_text: Seq<char>) -> EmissionModel {
        EmissionModel {
            log: LogEntryModel {
                severity: Severity::Error,
                message: "Invalid record from journald, discarding."@,
                fields: seq![
                    ("error"@, LogValueModel::Str(error_text)),
                    ("text"@, LogValueModel::Str(self.text@)),
                    ("stage"@, LogValueModel::Str(Stage::Processing.spec_label())),
                    ("error_type"@, LogValueModel::Str(ErrorType::ParserFailed.spec_label())),
                ],
            },
            metrics: seq![
                MetricUpdateModel::Counter {
                    name: "component_errors_total"@,
                    labels: seq![
                        ("stage"@, Stage::Processing.spec_label()),
                        ("error_type"@, ErrorType::ParserFailed.spec_label()),
                    ],
                    delta: 1,
                },
                MetricUpdateModel::Counter {
                    name: "invalid_record_total"@,
                    labels: Seq::empty(),
                    delta: 1,
                },
                MetricUpdateModel::Counter {
                    name: "invalid_record_bytes_total"@,
                    labels: Seq::empty(),
                    delta: self.text_byte_len(),
                },
            ],
            derived: None,
        }
    }
}

impl InternalEvent for JournaldInvalidRecordError {
    open spec fn wf(&self) -> bool {
        true
    }

    /// Exact but for the rendered text of the opaque parse error, which only
    /// the log entry carries.
    open spec fn emits(&self, e: EmissionModel) -> bool {
        exists|error_text: Seq<char>| e == self.emission_with(error_text)
    }

    fn effects(self) -> (e: Emission) {
        let ghost me = self;
        let error_text = adapters::json_error_text(&self.error);
        let ghost t = error_text@;
        let byte_len = self.text.as_str().len() as u64;
        let mut fields: Vec<(String, LogValue)> = Vec::new();
        fields.push(field_string("error", error_text));
        fields.push(field_string("text", self.text));
        fields.push(field_str("stage", Stage::Processing.label()));
        fields.push(field_str("error_type", ErrorType::ParserFailed.label()));
        let log = LogEntry {
            severity: Severity::Error,
            message: "Invalid record from journald, discarding.".to_owned(),
            fields,
        };
        let mut error_labels: Vec<(String, String)> = Vec::new();
        error_labels.push(label("stage", Stage::Processing.label()));
        error_labels.push(label("error_type", ErrorType::ParserFailed.label()));
        let mut updates: Vec<MetricUpdate> = Vec::new();
        updates.push(counter_update("component_errors_total", error_labels, 1));
        updates.push(counter_update("invalid_record_total", Vec::new(), 1));
        updates.push(counter_update("invalid_record_bytes_total", Vec::new(), byte_len));
        let e = Emission { log, metrics: updates, derived: None };
        proof {
            assert(e@ =~~= me.emission_with(t));
        }
        e
    }
}

/// The journal-reading subprocess could not be started. Receiving stage,
/// command failure.
#[derive(Debug)]
pub struct JournaldStartJournalctlError {
    pub error: UpstreamError,
}

impl JournaldStartJournalctlError {
    /// The exact emission: one error-level log entry carrying the registry
    /// pair (receiving, command failed) and the supervisor's error detail,
    /// and one increment of `component_errors_total` by 1 under those labels.
    pub open spec fn emission(&self) -> EmissionModel {
        EmissionModel {
            log: LogEntryModel {
                severity: Severity::Error,
                message: "Error starting journalctl process."@,
                fields: seq![
                    ("error"@, LogValueModel::Str(self.error.message@)),
                    ("stage"@, LogValueModel::Str(Stage::Receiving.spec_label())),
                    ("error_type"@, LogValueModel::Str(ErrorType::CommandFailed.spec_label())),
                ],
            },
            metrics: seq![
                MetricUpdateModel::Counter {
                    name: "component_errors_total"@,
                    labels: seq![
                        ("stage"@, Stage::Receiving.spec_label()),
                        ("error_type"@, ErrorType::CommandFailed.spec_label()),
                    ],
                    delta: 1,
                },
            ],
            derived: None,
        }
    }
}

impl InternalEvent for JournaldStartJournalctlError {
    open spec fn wf(&self) -> bool {
        true
    }

    open spec fn emits(&self, e: EmissionModel) -> bool {
        e == self.emission()
    }

    fn effects(self) -> (e: Emission) {
        let ghost me = self;
        let mut fields: Vec<(String, LogValue)> = Vec::new();
        fields.push(field_string("error", self.error.message));
        fields.push(field_str("stage", Stage::Receiving.label()));
        fields.push(field_str("error_type", ErrorType::CommandFailed.label()));
        let log = LogEntry {
            severity: Severity::Error,
            message: "Error starting journalctl process.".to_owned(),
            fields,
        };
        let mut error_labels: Vec<(String, String)> = Vec::new();
        error_labels.push(label("stage", Stage::Receiving.label()));
        error_labels.push(label("error_type", ErrorType::CommandFailed.label()));
        let mut updates: Vec<MetricUpdate> = Vec::new();
        updates.push(counter_update("component_errors_total", error_labels, 1));
        let e = Emission { log, metrics: updates, derived: None };
        proof {
            assert(e@ =~~= me.emission());
        }
        e
    }
}

/// Reading from the journal stream failed on a framing error. Processing
/// stage, reader failure.
#[derive(Debug)]
pub struct JournaldReadError {
    pub error: FramingError,
}

impl JournaldReadError {
    /// The exact emission: one error-level log entry carrying the registry
    /// pair (processing, reader failed) and the decoder's error detail, and
    /// one increment of `component_errors_total` by 1 under those labels.
    pub open spec fn emission(&self) -> EmissionModel {
        EmissionModel {
            log: LogEntryModel {
                severity: Severity::Error,
                message: "Could not read from journald."@,
                fields: seq![
                    ("error"@, LogValueModel::Str(self.error.message@)),
                    ("stage"@, LogValueModel::Str(Stage::Processing.spec_label())),
                    ("error_type"@, LogValueModel::Str(ErrorType::ReaderFailed.spec_label())),
                ],
            },
            metrics: seq![
                MetricUpdateModel::Counter {
                    name: "component_errors_total"@,
                    labels: seq![
                        ("stage"@, Stage::Processing.spec_label()),
                        ("error_type"@, ErrorType::ReaderFailed.spec_label()),
                    ],
                    delta: 1,
                },
            ],
            derived: None,
        }
    }
}

impl InternalEvent for JournaldReadError {
    open spec fn wf(&self) -> bool {
        true
    }

    open spec fn emits(&self, e: EmissionModel) -> bool {
        e == self.emission()
    }

    fn effects(self) -> (e: Emission) {
        let ghost me = self;
        let mut fields: Vec<(String, LogValue)> = Vec::new();
        fields.push(field_string("error", self.error.message));
        fields.push(field_str("stage", Stage::Processing.label()));
        fields.push(field_str("error_type", ErrorType::ReaderFailed.label()));
        let log = LogEntry {
            severity: Severity::Error,
            message: "Could not read from journald.".to_owned(),
            fields,
        };
        let mut error_labels: Vec<(String, String)> = Vec::new();
        error_labels.push(label("stage", Stage::Processing.label()));
        error_labels.push(label("error_type", ErrorType::ReaderFailed.label()));
        let mut updates: Vec<MetricUpdate> = Vec::new();
        updates.push(counter_update("component_errors_total", error_labels, 1));
        let e = Emission { log, metrics: updates, derived: None };
        proof {
            assert(e@ =~~= me.emission());
        }
        e
    }
}

/// Writing the journal read-position checkpoint failed. Processing stage,
/// I/O failure. Carries the checkpoint file name as a diagnostic log field.
#[derive(Debug)]
pub struct JournaldCheckpointSetError {
    pub error: std::io::Error,
    pub filename: String,
}

impl JournaldCheckpointSetError {
    /// The emission, given the rendered text of the opaque I/O error: one
    /// error-level log entry carrying the registry pair (processing, I/O
    /// failed) and one increment of `component_errors_total` by 1 under those
    /// labels.
    pub open spec fn emission_with(&self, error_text: Seq<char>) -> EmissionModel {
        EmissionModel {
            log: LogEntryModel {
                severity: Severity::Error,
                message: "Could not set journald checkpoint."@,
                fields: seq![
                    ("filename"@, LogValueModel::Str(self.filename@)),
                    ("error"@, LogValueModel::Str(error_text)),
                    ("stage"@, LogValueModel::Str(Stage::Processing.spec_label())),
                    ("error_type"@, LogValueModel::Str(ErrorType::IoFailed.spec_label())),
                ],
            },
            metrics: seq![
                MetricUpdateModel::Counter {
                    name: "component_errors_total"@,
                    labels: seq![
                        ("stage"@, Stage::Processing.spec_label()),
                        ("error_type"@, ErrorType::IoFailed.spec_label()),
                    ],
                    delta: 1,
                },
            ],
            derived: None,
        }
    }
}

impl InternalEvent for JournaldCheckpointSetError {
    open spec fn wf(&self) -> bool {
        true
    }

    /// Exact but for the rendered text of the opaque I/O error, which only
    /// the log entry carries.
    open spec fn emits(&self, e: EmissionModel) -> bool {
        exists|error_text: Seq<char>| e == self.emission_with(error_text)
    }

    fn effects(self) -> (e: Emission) {
        let ghost me = self;
        let error_text = adapters::io_error_text(&self.error);
        let ghost t = error_text@;
        let mut fields: Vec<(String, LogValue)> = Vec::new();
        fields.push(field_string("filename", self.filename));
        fields.push(field_string("error", error_text));
        fields.push(field_str("stage", Stage::Processing.label()));
        fields.push(field_str("error_type", ErrorType::IoFailed.label()));
        let log = LogEntry {
            severity: Severity::Error,
            message: "Could not set journald checkpoint.".to_owned(),
            fields,
        };
        let mut error_labels: Vec<(String, String)> = Vec::new();
        error_labels.push(label("stage", Stage::Processing.label()));
        error_labels.push(label("error_type", ErrorType::IoFailed.label()));
        let mut updates: Vec<MetricUpdate> = Vec::new();
        updates.push(counter_update("component_errors_total", error_labels, 1));
        let e = Emission { log, metrics: updates, derived: None };
        proof {
            assert(e@ =~~= me.emission_with(t));
        }
        e
    }
}

/// Opening the journal checkpoint file failed. Receiving stage, I/O failure.
/// Carries the checkpoint path as a diagnostic log field.
#[derive(Debug)]
pub struct JournaldCheckpointFileOpenError {
    pub error: std::io::Error,
    pub path: String,
}

impl JournaldCheckpointFileOpenError {
    /// The emission, given the rendered text of the opaque I/O error: one
    /// error-level log entry carrying the registry pair (receiving, I/O
    /// failed) and one increment of `component_errors_total` by 1 under those
    /// labels.
    pub open spec fn emission_with(&self, error_text: Seq<char>) -> EmissionModel {
        EmissionModel {
            log: LogEntryModel {
                severity: Severity::Error,
                message: "Unable to open checkpoint file."@,
                fields: seq![
                    ("path"@, LogValueModel::Str(self.path@)),
                    ("error"@, LogValueModel::Str(error_text)),
                    ("stage"@, LogValueModel::Str(Stage::Receiving.spec_label())),
                    ("error_type"@, LogValueModel::Str(ErrorType::IoFailed.spec_label())),
                ],
            },
            metrics: seq![
                MetricUpdateModel::Counter {
                    name: "component_errors_total"@,
                    labels: seq![
                        ("stage"@, Stage::Receiving.spec_label()),
                        ("error_type"@, ErrorType::IoFailed.spec_label()),
                    ],
                    delta: 1,
                },
            ],
            derived: None,
        }
    }
}

impl InternalEvent for JournaldCheckpointFileOpenError {
    open spec fn wf(&self) -> bool {
        true
    }

    /// Exact but for the rendered text of the opaque I/O error, which only
    /// the log entry carries.
    open spec fn emits(&self, e: EmissionModel) -> bool {
        exists|error_text: Seq<char>| e == self.emission_with(error_text)
    }

    fn effects(self) -> (e: Emission) {
        let ghost me = self;
        let error_text = adapters::io_error_text(&self.error);
        let ghost t = error_text@;
        let mut fields: Vec<(String, LogValue)> = Vec::new();
        fields.push(field_string("path", self.path));
        fields.push(field_string("error", error_text));
        fields.push(field_str("stage", Stage::Receiving.label()));
        fields.push(field_str("error_type", ErrorType::IoFailed.label()));
        let log = LogEntry {
            severity: Severity::Error,
            message: "Unable to open checkpoint file.".to_owned(),
            fields,
        };
        let mut error_labels: Vec<(String, String)> = Vec::new();
        error_labels.push(label("stage", Stage::Receiving.label()));
        error_labels.push(label("error_type", ErrorType::IoFailed.label()));
        let mut updates: Vec<MetricUpdate> = Vec::new();
        updates.push(counter_update("component_errors_total", error_labels, 1));
        let e = Emission { log, metrics: updates, derived: None };
        proof {
            assert(e@ =~~= me.emission_with(t));
        }
        e
    }
}

} // verus!
