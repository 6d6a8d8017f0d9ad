//! Error taxonomy registry: closed enumerations of the pipeline stage and the
//! failure type that every error event must reference. Keeping both sets
//! closed bounds metric label cardinality and prevents label drift across
//! independently authored event kinds.

use vstd::prelude::*;

verus! {

/// Pipeline lifecycle phase during which a failure occurred.
#[derive(Clone, Copy, Debug, PartialEq, Eq, Structural)]
pub enum Stage {
    Receiving,
    Processing,
    Sending,
}

/// Kind of failure, independent of the reporting component.
#[derive(Clone, Copy, Debug, PartialEq, Eq, Structural)]
pub enum ErrorType {
    ReaderFailed,
    WriterFailed,
    ParserFailed,
    CommandFailed,
    IoFailed,
}

impl Stage {
    /// The stable label value this stage contributes to metrics and logs.
    pub open spec fn spec_label(self) -> Seq<char> {
        match self {
            Stage::Receiving => "receiving"@,
            Stage::Processing => "processing"@,
            Stage::Sending => "sending"@,
        }
    }

    pub fn label(self) -> (r: &'static str)
        ensures
            r@ == self.spec_label(),
    {
        match self {
            Stage::Receiving => "receiving",
            Stage::Processing => "processing",
            Stage::Sending => "sending",
        }
    }
}

impl ErrorType {
    /// The stable label value this failure type contributes to metrics and logs.
    pub open spec fn spec_label(self) -> Seq<char> {
        match self {
            ErrorType::ReaderFailed => "reader_failed"@,
            ErrorType::WriterFailed => "writer_failed"@,
            ErrorType::ParserFailed => "parser_failed"@,
            ErrorType::CommandFailed => "command_failed"@,
            ErrorType::IoFailed => "io_failed"@,
        }
    }

    pub fn label(self) -> (r: &'static str)
        ensures
            r@ == self.spec_label(),
    {
        match self {
            ErrorType::ReaderFailed => "reader_failed",
            ErrorType::WriterFailed => "writer_failed",
            ErrorType::ParserFailed => "parser_failed",
            ErrorType::CommandFailed => "command_failed",
            ErrorType::IoFailed => "io_failed",
        }
    }
}

} // verus!
