//! Why a script failed.

use vstd::prelude::*;
use vstd::string::*;
use crate::text::{joined, push_char};

verus! {

/// The reason for which a script failed. The first failure ends the script,
/// so a script has at most one.
#[derive(Debug, PartialEq, Eq)]
pub enum Failure {
    /// The transport could not be opened.
    ConnectError,
    /// A line has no characters.
    EmptyLine,
    /// A line ends after its command character.
    MissingSeparator,
    /// The character after the command is not a colon.
    BadSeparator,
    /// The command character is none of `S`, `E`, `R`, `J` and `#`.
    UnknownCommand { cmd: char },
    /// The text could not be sent.
    SendFailed,
    /// Reading from the transport failed.
    ReadFailed,
    /// A close frame came while a text frame was awaited.
    ConnectionClosed,
    /// A binary frame came while a text frame was awaited.
    BinaryUnsupported,
    /// The received text is not the expected one.
    UnexpectedText { expected: String, got: String },
    /// The payload of an `R` line is not a regular expression.
    InvalidRegex,
    /// The pattern matches nowhere in the received text.
    RegexMismatch { got: String, pattern: String },
    /// The payload of a `J` line is not a JSON document.
    InvalidExpectedJson { expected: String },
    /// The received text is not a JSON document.
    InvalidReceivedJson { got: String },
    /// The received document does not hold what the expected one describes.
    JsonNotIncluded { got: String, expected: String },
}

/// A [`Failure`] with its texts as sequences of characters.
pub enum FailureModel {
    ConnectError,
    EmptyLine,
    MissingSeparator,
    BadSeparator,
    UnknownCommand { cmd: char },
    SendFailed,
    ReadFailed,
    ConnectionClosed,
    BinaryUnsupported,
    UnexpectedText { expected: Seq<char>, got: Seq<char> },
    InvalidRegex,
    RegexMismatch { got: Seq<char>, pattern: Seq<char> },
    InvalidExpectedJson { expected: Seq<char> },
    InvalidReceivedJson { got: Seq<char> },
    JsonNotIncluded { got: Seq<char>, expected: Seq<char> },
}

impl View for Failure {
    type V = FailureModel;

    open spec fn view(&self) -> FailureModel {
        match self {
            Failure::ConnectError => FailureModel::ConnectError,
            Failure::EmptyLine => FailureModel::EmptyLine,
            Failure::MissingSeparator => FailureModel::MissingSeparator,
            Failure::BadSeparator => FailureModel::BadSeparator,
            Failure::UnknownCommand { cmd } => FailureModel::UnknownCommand { cmd: *cmd },
            Failure::SendFailed => FailureModel::SendFailed,
            Failure::ReadFailed => FailureModel::ReadFailed,
            Failure::ConnectionClosed => FailureModel::ConnectionClosed,
            Failure::BinaryUnsupported => FailureModel::BinaryUnsupported,
            Failure::UnexpectedText { expected, got } => FailureModel::UnexpectedText {
                expected: expected@,
                got: got@,
            },
            Failure::InvalidRegex => FailureModel::InvalidRegex,
            Failure::RegexMismatch { got, pattern } => FailureModel::RegexMismatch {
                got: got@,
                pattern: pattern@,
            },
            Failure::InvalidExpectedJson { expected } => FailureModel::InvalidExpectedJson {
                expected: expected@,
            },
            Failure::InvalidReceivedJson { got } => FailureModel::InvalidReceivedJson { got: got@ },
            Failure::JsonNotIncluded { got, expected } => FailureModel::JsonNotIncluded {
                got: got@,
                expected: expected@,
            },
        }
    }
}

/// How one script ended.
#[derive(Debug, PartialEq, Eq)]
pub enum TestOutcome {
    /// Every line was carried out.
    Success,
    /// A line failed; the lines after it were not carried out.
    Failure(Failure),
}

impl View for TestOutcome {
    type V = Option<FailureModel>;

    /// `None` for success, and the failure otherwise.
    open spec fn view(&self) -> Option<FailureModel> {
        match self {
            TestOutcome::Success => None,
            TestOutcome::Failure(failure) => Some(failure@),
        }
    }
}

impl Clone for Failure {
    /// The same variant with the same texts.
    fn clone(&self) -> (cloned: Failure)
        ensures
            cloned@ == self@,
    {
        match self {
            Failure::ConnectError => Failure::ConnectError,
            Failure::EmptyLine => Failure::EmptyLine,
            Failure::MissingSeparator => Failure::MissingSeparator,
            Failure::BadSeparator => Failure::BadSeparator,
            Failure::UnknownCommand { cmd } => Failure::UnknownCommand { cmd: *cmd },
            Failure::SendFailed => Failure::SendFailed,
            Failure::ReadFailed => Failure::ReadFailed,
            Failure::ConnectionClosed => Failure::ConnectionClosed,
            Failure::BinaryUnsupported => Failure::BinaryUnsupported,
            Failure::UnexpectedText { expected, got } => Failure::UnexpectedText {
                expected: expected.clone(),
                got: got.clone(),
            },
            Failure::InvalidRegex => Failure::InvalidRegex,
            Failure::RegexMismatch { got, pattern } => Failure::RegexMismatch {
                got: got.clone(),
                pattern: pattern.clone(),
            },
            Failure::InvalidExpectedJson { expected } => Failure::InvalidExpectedJson {
                expected: expected.clone(),
            },
            Failure::InvalidReceivedJson { got } => Failure::InvalidReceivedJson {
                got: got.clone(),
            },
            Failure::JsonNotIncluded { got, expected } => Failure::JsonNotIncluded {
                got: got.clone(),
                expected: expected.clone(),
            },
        }
    }
}

impl Clone for TestOutcome {
    fn clone(&self) -> (cloned: TestOutcome)
        ensures
            cloned@ == self@,
    {
        match self {
            TestOutcome::Success => TestOutcome::Success,
            TestOutcome::Failure(failure) => TestOutcome::Failure(failure.clone()),
        }
    }
}

/// The reason of a failure in words, for a person to read. Where the failure
/// is about texts, the reason shows them.
pub open spec fn reason_text(failure: FailureModel) -> Seq<char> {
    match failure {
        FailureModel::ConnectError => "Can't connect"@,
        FailureModel::EmptyLine => "Line cannot be empty"@,
        FailureModel::MissingSeparator => "Separator not found"@,
        FailureModel::BadSeparator => "Separator should be ':'"@,
        FailureModel::UnknownCommand { cmd } => "Unknown cmd "@.push(cmd),
        FailureModel::SendFailed => "Couldnt send message(probably closed)"@,
        FailureModel::ReadFailed => "Couldn't read message"@,
        FailureModel::ConnectionClosed => "Websocket closed"@,
        FailureModel::BinaryUnsupported => "Binary frames not supported"@,
        FailureModel::UnexpectedText { expected, got } => "\n\texpected "@ + expected
            + " \n\tgot "@ + got,
        FailureModel::InvalidRegex => "Invalid regex"@,
        FailureModel::RegexMismatch { got, pattern } => "\n\t"@ + got
            + " doesnt match\n\tregex "@ + pattern,
        FailureModel::InvalidExpectedJson { expected } => "Could not parse test json "@
            + expected,
        FailureModel::InvalidReceivedJson { got } => "Could not parse read json "@ + got,
        FailureModel::JsonNotIncluded { got, expected } => "\n\t"@ + got
            + " doesnt include\n\tjson "@ + expected,
    }
}

impl Failure {
    /// The reason in words: see [`reason_text`].
    pub fn reason(&self) -> (text: String)
        ensures
            text@ == reason_text(self@),
    {
        match self {
            Failure::ConnectError => "Can't connect".to_string(),
            Failure::EmptyLine => "Line cannot be empty".to_string(),
            Failure::MissingSeparator => "Separator not found".to_string(),
            Failure::BadSeparator => "Separator should be ':'".to_string(),
            Failure::UnknownCommand { cmd } => {
                let mut text: String = "Unknown cmd ".to_string();
                push_char(&mut text, *cmd);
                text
            },
            Failure::SendFailed => "Couldnt send message(probably closed)".to_string(),
            Failure::ReadFailed => "Couldn't read message".to_string(),
            Failure::ConnectionClosed => "Websocket closed".to_string(),
            Failure::BinaryUnsupported => "Binary frames not supported".to_string(),
            Failure::UnexpectedText { expected, got } => joined(
                "\n\texpected ",
                expected.as_str(),
                " \n\tgot ",
                got.as_str(),
            ),
            Failure::InvalidRegex => "Invalid regex".to_string(),
            Failure::RegexMismatch { got, pattern } => joined(
                "\n\t",
                got.as_str(),
                " doesnt match\n\tregex ",
                pattern.as_str(),
            ),
            Failure::InvalidExpectedJson { expected } => {
                let mut text: String = "Could not parse test json ".to_string();
                text.append(expected.as_str());
                text
            },
            Failure::InvalidReceivedJson { got } => {
                let mut text: String = "Could not parse read json ".to_string();
                text.append(got.as_str());
                text
            },
            Failure::JsonNotIncluded { got, expected } => joined(
                "\n\t",
                got.as_str(),
                " doesnt include\n\tjson ",
                expected.as_str(),
            ),
        }
    }
}

} // verus!
