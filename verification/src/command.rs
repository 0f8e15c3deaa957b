//! Programs to run and what running them gave: the values that pass between
//! the pipelines, which decide, and their caller, which acts.

use vstd::prelude::*;
use vstd::string::StringExecFns;
use crate::decimal::{decimal, push_decimal, push_zero_padded, zero_padded};

verus! {

/// A program to run: its name, its arguments, the text to feed to its
/// standard input if any, and the files to delete once it has ended,
/// whatever its result.
#[derive(Clone, Debug)]
pub struct Command {
    pub program: String,
    pub args: Vec<String>,
    pub input: Option<String>,
    pub cleanup: Vec<String>,
}

/// What a command holds, as mathematical values.
pub struct CommandModel {
    pub program: Seq<char>,
    pub args: Seq<Seq<char>>,
    pub input: Option<Seq<char>>,
    pub cleanup: Seq<Seq<char>>,
}

impl View for Command {
    type V = CommandModel;

    open spec fn view(&self) -> CommandModel {
        CommandModel {
            program: self.program@,
            args: self.args.deep_view(),
            input: match self.input {
                Some(text) => Some(text@),
                None => None,
            },
            cleanup: self.cleanup.deep_view(),
        }
    }
}

/// What an action gave. A program that ran reports its diagnostic output on
/// failure and its standard output on success; storing or finding a file
/// succeeds or fails with empty texts.
#[derive(Clone, Debug)]
pub enum Outcome {
    /// The program could not be launched.
    Unavailable,
    /// The action was carried out and failed.
    Failed { diagnostic: String },
    /// The action succeeded.
    Succeeded { output: String },
}

/// What an outcome holds, as mathematical values.
pub enum OutcomeModel {
    Unavailable,
    Failed { diagnostic: Seq<char> },
    Succeeded { output: Seq<char> },
}

impl View for Outcome {
    type V = OutcomeModel;

    open spec fn view(&self) -> OutcomeModel {
        match self {
            Outcome::Unavailable => OutcomeModel::Unavailable,
            Outcome::Failed { diagnostic } => OutcomeModel::Failed { diagnostic: diagnostic@ },
            Outcome::Succeeded { output } => OutcomeModel::Succeeded { output: output@ },
        }
    }
}

/// A duration in seconds with three decimals, as the encoder reads it.
pub open spec fn seconds_text(ms: nat) -> Seq<char> {
    decimal(ms / 1000) + seq!['.'] + zero_padded(ms % 1000, 3)
}

/// Formats a duration in milliseconds as seconds with three decimals.
pub fn format_seconds(ms: u64) -> (out: String)
    ensures
        out@ == seconds_text(ms as nat),
{
    let mut out = String::new();
    push_decimal(&mut out, ms / 1000);
    out.push('.');
    push_zero_padded(&mut out, ms % 1000, 3);
    out
}

/// A name that carries a time stamp between a prefix and a suffix.
pub open spec fn stamped(prefix: Seq<char>, timestamp: nat, suffix: Seq<char>) -> Seq<char> {
    prefix + decimal(timestamp) + suffix
}

/// Builds a name that carries `timestamp` between `prefix` and `suffix`.
pub fn stamped_name(prefix: &str, timestamp: u64, suffix: &str) -> (out: String)
    ensures
        out@ == stamped(prefix@, timestamp as nat, suffix@),
{
    let mut out = String::from_str(prefix);
    push_decimal(&mut out, timestamp);
    out.append(suffix);
    out
}

/// The place of a file in the output directory.
pub open spec fn upload_path_of(filename: Seq<char>) -> Seq<char> {
    "uploads/"@ + filename
}

/// The place of the file `filename` in the output directory.
pub fn upload_path(filename: &str) -> (out: String)
    ensures
        out@ == upload_path_of(filename@),
{
    let mut out = String::from_str("uploads/");
    out.append(filename);
    out
}

/// The address under which a file of the output directory is served.
pub open spec fn download_url_of(filename: Seq<char>) -> Seq<char> {
    "/download/"@ + filename
}

/// The address under which the file `filename` is served.
pub fn download_url(filename: &str) -> (out: String)
    ensures
        out@ == download_url_of(filename@),
{
    let mut out = String::from_str("/download/");
    out.append(filename);
    out
}

} // verus!
