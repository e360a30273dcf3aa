//! Pretty-printing of structured text (JSON, YAML, XML) read from a file or
//! the system clipboard.
//!
//! The crate has two verified components. The input resolver reconciles the
//! clipboard and the file argument into exactly one input source, rejecting
//! ambiguous or empty configurations. The format transcoder parses a text in
//! the selected format and re-emits it in that format's pretty form; its
//! contracts state that formatting succeeds exactly on inputs that parse, and
//! that the result still parses to the same document. Reading files, touching
//! the clipboard and writing the result are left to the binary around the
//! crate.

use vstd::prelude::*;

pub mod formater;
pub mod input;

verus! {

/// The target structured-data format selected for a run.
#[derive(Clone, Copy, Debug, PartialEq, Eq, Structural)]
pub enum FormatType {
    Json,
    Yaml,
    Xml,
}

/// A destination that the formatted bytes can be written to.
#[derive(Clone, Copy, Debug, PartialEq, Eq, Structural)]
pub enum Sink {
    Stdout,
    File,
    Clipboard,
}

/// Everything that can end a run early. Every failure is terminal: there is no
/// retry and no partial output.
#[derive(Clone, Copy, Debug, PartialEq, Eq, Structural)]
pub enum FormatError {
    /// Neither a file path nor any clipboard content was supplied.
    InputMissing,
    /// More than one input source was supplied at once.
    InputAmbiguous,
    /// The clipboard could not be opened at all.
    ClipboardUnavailable,
    /// The clipboard was open but held neither a file list nor readable text.
    ClipboardUnreadable,
    /// The input file could not be opened for reading.
    FileOpenFailed,
    /// The input text did not parse in the selected format.
    ParseFailed(FormatType),
    /// One of the requested destinations could not be written.
    WriteFailed(Sink),
}

/// The wording used when an error is reported to the user.
pub open spec fn spec_message(e: FormatError) -> Seq<char> {
    match e {
        FormatError::InputMissing => "no input provided: use the clipboard flag or an input file"@,
        FormatError::InputAmbiguous => "only one input source is allowed: either a file or the clipboard"@,
        FormatError::ClipboardUnavailable => "unable to access the clipboard"@,
        FormatError::ClipboardUnreadable => "failed to read the clipboard"@,
        FormatError::FileOpenFailed => "failed to open the input file"@,
        FormatError::ParseFailed(FormatType::Json) => "failed to parse the input as JSON"@,
        FormatError::ParseFailed(FormatType::Yaml) => "failed to parse the input as YAML"@,
        FormatError::ParseFailed(FormatType::Xml) => "failed to parse the input as XML"@,
        FormatError::WriteFailed(Sink::Stdout) => "failed to write to standard output"@,
        FormatError::WriteFailed(Sink::File) => "failed to write the output file"@,
        FormatError::WriteFailed(Sink::Clipboard) => "failed to write back to the clipboard"@,
    }
}

impl FormatError {
    /// A human-readable description of the failure.
    pub fn message(&self) -> (r: &'static str)
        ensures
            r@ == spec_message(*self),
    {
        match *self {
            FormatError::InputMissing => "no input provided: use the clipboard flag or an input file",
            FormatError::InputAmbiguous => "only one input source is allowed: either a file or the clipboard",
            FormatError::ClipboardUnavailable => "unable to access the clipboard",
            FormatError::ClipboardUnreadable => "failed to read the clipboard",
            FormatError::FileOpenFailed => "failed to open the input file",
            FormatError::ParseFailed(FormatType::Json) => "failed to parse the input as JSON",
            FormatError::ParseFailed(FormatType::Yaml) => "failed to parse the input as YAML",
            FormatError::ParseFailed(FormatType::Xml) => "failed to parse the input as XML",
            FormatError::WriteFailed(Sink::Stdout) => "failed to write to standard output",
            FormatError::WriteFailed(Sink::File) => "failed to write the output file",
            FormatError::WriteFailed(Sink::Clipboard) => "failed to write back to the clipboard",
        }
    }
}

/// Arguments of the formatting command, already parsed into plain values.
pub struct FormatCommand {
    /// Use the clipboard as the input source.
    pub clip: bool,
    /// Use a file as the input source.
    pub input: Option<String>,
    /// The format to parse and pretty-print.
    pub format: FormatType,
    /// Write the result to this file instead of standard output.
    pub output: Option<String>,
    /// Copy the formatted result back to the clipboard as well.
    pub back: bool,
}

/// Arguments of the address lookup command; it takes none.
pub struct IpCommand {}

} // verus!
