//! The lines of a script.

use vstd::prelude::*;
use vstd::string::*;
use crate::failure::{Failure, FailureModel};

verus! {

/// The character that stands between a line's command and its payload.
pub const SEPARATOR: char = ':';

/// The character with which a comment begins.
pub const COMMENT: char = '#';

/// Whether a line is a comment: one that begins with [`COMMENT`], whatever
/// follows. A comment needs no separator.
pub open spec fn is_comment(line: Seq<char>) -> bool {
    line.len() > 0 && line[0] == COMMENT
}

/// Whether a line is a comment: see [`is_comment`].
pub fn is_comment_line(line: &str) -> (comment: bool)
    ensures
        comment == is_comment(line@),
{
    line.unicode_len() > 0 && line.get_char(0) == COMMENT
}

/// What a line asks for.
#[derive(Clone, Copy, Debug, PartialEq, Eq, Structural)]
pub enum Command {
    /// `S`: send the payload as a text frame.
    Send,
    /// `E`: await a text frame equal to the payload.
    ExpectText,
    /// `R`: await a text frame in which the payload, a regular expression,
    /// matches somewhere.
    ExpectRegex,
    /// `J`: await a text frame that is a JSON document and includes the
    /// payload, a JSON document too.
    ExpectJson,
    /// `#`: nothing.
    Comment,
}

/// The command that a command character stands for, or `None` where it
/// stands for none.
pub open spec fn command_of(tag: char) -> Option<Command> {
    if tag == 'S' {
        Some(Command::Send)
    } else if tag == 'E' {
        Some(Command::ExpectText)
    } else if tag == 'R' {
        Some(Command::ExpectRegex)
    } else if tag == 'J' {
        Some(Command::ExpectJson)
    } else if tag == COMMENT {
        Some(Command::Comment)
    } else {
        None
    }
}

impl Command {
    /// The command that a command character stands for: see [`command_of`].
    pub fn from_tag(tag: char) -> (command: Option<Command>)
        ensures
            command == command_of(tag),
    {
        if tag == 'S' {
            Some(Command::Send)
        } else if tag == 'E' {
            Some(Command::ExpectText)
        } else if tag == 'R' {
            Some(Command::ExpectRegex)
        } else if tag == 'J' {
            Some(Command::ExpectJson)
        } else if tag == COMMENT {
            Some(Command::Comment)
        } else {
            None
        }
    }
}

/// One line of a script: the command character, and the text after the
/// separator as it was written.
#[derive(Debug, PartialEq, Eq)]
pub struct ScriptLine {
    pub command: char,
    pub payload: String,
}

/// Why a text is not a script line, or `None` where it is one: a line needs
/// a command character and, directly after it, the separator.
pub open spec fn line_failure(line: Seq<char>) -> Option<FailureModel> {
    if line.len() == 0 {
        Some(FailureModel::EmptyLine)
    } else if line.len() == 1 {
        Some(FailureModel::MissingSeparator)
    } else if line[1] != SEPARATOR {
        Some(FailureModel::BadSeparator)
    } else {
        None
    }
}

/// Splits a line into its command and its payload.
///
/// The payload is everything after the separator, unchanged: blanks at
/// either end stay, and so do further colons.
pub fn parse_line(line: &str) -> (parsed: Result<ScriptLine, Failure>)
    ensures
        match parsed {
            Ok(script_line) => {
                &&& line_failure(line@) is None
                &&& script_line.command == line@[0]
                &&& script_line.payload@ == line@.skip(2)
            },
            Err(failure) => line_failure(line@) == Some(failure@),
        },
{
    let length: usize = line.unicode_len();
    if length == 0 {
        return Err(Failure::EmptyLine);
    }
    if length == 1 {
        return Err(Failure::MissingSeparator);
    }
    if line.get_char(1) != SEPARATOR {
        return Err(Failure::BadSeparator);
    }
    let command: char = line.get_char(0);
    let payload: String = line.substring_char(2, length).to_string();
    Ok(ScriptLine { command, payload })
}

} // verus!
