//! The failures that the pipelines report.

use vstd::prelude::*;
use vstd::string::StringExecFns;

verus! {

/// What went wrong.
#[derive(Clone, Copy, Debug, PartialEq, Eq, Structural)]
pub enum ErrorKind {
    /// A request lacks text, an upload or an audio reference.
    Input,
    /// The audio duration is unusable or not positive.
    Duration,
    /// A synthesis or encoding program could not be launched.
    EngineUnavailable,
    /// A program that was launched reported failure.
    ToolFailure,
    /// Synthesized audio could not be brought into the target format.
    Conversion,
    /// A program reported success and its output file is absent.
    OutputMissing,
    /// An upload could not be written to the output directory.
    Storage,
}

/// A failure: its kind and the message for the operator.
#[derive(Clone, Debug)]
pub struct Failure {
    pub kind: ErrorKind,
    pub message: String,
}

/// What a failure holds, as mathematical values.
pub struct FailureModel {
    pub kind: ErrorKind,
    pub message: Seq<char>,
}

impl View for Failure {
    type V = FailureModel;

    open spec fn view(&self) -> FailureModel {
        FailureModel { kind: self.kind, message: self.message@ }
    }
}

impl Failure {
    /// A failure with a fixed message.
    pub fn new(kind: ErrorKind, message: &str) -> (out: Failure)
        ensures
            out.kind == kind,
            out.message@ == message@,
    {
        Failure { kind, message: String::from_str(message) }
    }

    /// A failure whose message is `prefix` followed by the diagnostic text
    /// of a program, unchanged.
    pub fn with_detail(kind: ErrorKind, prefix: &str, detail: &str) -> (out: Failure)
        ensures
            out.kind == kind,
            out.message@ == prefix@ + detail@,
    {
        let mut message = String::from_str(prefix);
        message.append(detail);
        Failure { kind, message }
    }
}

} // verus!
