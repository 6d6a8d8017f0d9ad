//! The structured, leveled log side of an emission: one log entry per
//! dispatch, carrying a severity, a message, and named field values.

use vstd::prelude::*;

verus! {

/// Severity of a log entry. Only the levels the event catalog uses.
#[derive(Clone, Copy, Debug, PartialEq, Eq, Structural)]
pub enum Severity {
    Trace,
    Debug,
    Error,
}

/// A structured log field value: a string, an unsigned number, or a flag.
#[derive(Debug, PartialEq)]
pub enum LogValue {
    Str(String),
    Uint(u64),
    Bool(bool),
}

/// Mathematical model of a [`LogValue`].
pub enum LogValueModel {
    Str(Seq<char>),
    Uint(u64),
    Bool(bool),
}

impl View for LogValue {
    type V = LogValueModel;

    open spec fn view(&self) -> LogValueModel {
        match self {
            LogValue::Str(s) => LogValueModel::Str(s@),
            LogValue::Uint(u) => LogValueModel::Uint(*u),
            LogValue::Bool(b) => LogValueModel::Bool(*b),
        }
    }
}

impl DeepView for LogValue {
    type V = LogValueModel;

    open spec fn deep_view(&self) -> LogValueModel {
        self.view()
    }
}

/// One structured log entry: severity, message text, and named fields.
#[derive(Debug)]
pub struct LogEntry {
    pub severity: Severity,
    pub message: String,
    pub fields: Vec<(String, LogValue)>,
}

/// Mathematical model of a [`LogEntry`].
#[verifier::ext_equal]
pub struct LogEntryModel {
    pub severity: Severity,
    pub message: Seq<char>,
    pub fields: Seq<(Seq<char>, LogValueModel)>,
}

impl View for LogEntry {
    type V = LogEntryModel;

    open spec fn view(&self) -> LogEntryModel {
        LogEntryModel {
            severity: self.severity,
            message: self.message@,
            fields: self.fields.deep_view(),
        }
    }
}

impl DeepView for LogEntry {
    type V = LogEntryModel;

    open spec fn deep_view(&self) -> LogEntryModel {
        self.view()
    }
}

/// The value of the named field, if the entry carries it (the last write
/// wins, though the catalog never repeats a field name).
pub open spec fn field_value(
    fields: Seq<(Seq<char>, LogValueModel)>,
    name: Seq<char>,
) -> Option<LogValueModel>
    decreases fields.len(),
{
    if fields.len() == 0 {
        None
    } else if fields.last().0 == name {
        Some(fields.last().1)
    } else {
        field_value(fields.drop_last(), name)
    }
}

/// Builds a string-valued field from a borrowed value.
pub fn field_str(name: &str, value: &str) -> (r: (String, LogValue))
    ensures
        r.0@ == name@,
        r.1@ == LogValueModel::Str(value@),
{
    (name.to_owned(), LogValue::Str(value.to_owned()))
}

/// Builds a string-valued field from an owned value.
pub fn field_string(name: &str, value: String) -> (r: (String, LogValue))
    ensures
        r.0@ == name@,
        r.1@ == LogValueModel::Str(value@),
{
    (name.to_owned(), LogValue::Str(value))
}

/// Builds a numeric field.
pub fn field_uint(name: &str, value: u64) -> (r: (String, LogValue))
    ensures
        r.0@ == name@,
        r.1@ == LogValueModel::Uint(value),
{
    (name.to_owned(), LogValue::Uint(value))
}

/// Builds a boolean field.
pub fn field_bool(name: &str, value: bool) -> (r: (String, LogValue))
    ensures
        r.0@ == name@,
        r.1@ == LogValueModel::Bool(value),
{
    (name.to_owned(), LogValue::Bool(value))
}

} // verus!
