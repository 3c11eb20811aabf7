//! The interpreter: what each line of a script asks for, how a received text
//! is judged, and the state machine that carries a script out.
//!
//! The interpreter does no sending or reading of its own. It names the next
//! [`Action`]; its caller performs it on the transport and reports the
//! [`Event`] that came of it.

use vstd::prelude::*;
use crate::failure::{Failure, FailureModel, TestOutcome};
use crate::frame::{read_text, text_read, Event, Frame};
use crate::document::{document, parse_json};
use crate::matcher::{does_json_include, includes, Json, JsonModel};
use crate::pattern::{compiles, finds, Pattern};
use crate::script::{
    command_of, is_comment, is_comment_line, line_failure, parse_line, Command, ScriptLine,
};
use crate::text::texts;

verus! {

/// What a line expects of the next text frame.
#[derive(Debug)]
pub enum Expectation {
    /// The text is this one, character for character.
    Text(String),
    /// The pattern matches somewhere in the text.
    Matching(Pattern),
    /// The text is a JSON document that includes the document written here.
    Json(String),
}

/// An [`Expectation`] with its texts as sequences of characters.
pub enum ExpectationModel {
    Text(Seq<char>),
    Matching(Seq<char>),
    Json(Seq<char>),
}

impl View for Expectation {
    type V = ExpectationModel;

    open spec fn view(&self) -> ExpectationModel {
        match self {
            Expectation::Text(expected) => ExpectationModel::Text(expected@),
            Expectation::Matching(pattern) => ExpectationModel::Matching(pattern@),
            Expectation::Json(expected) => ExpectationModel::Json(expected@),
        }
    }
}

/// Where the interpreter stands between two events.
#[derive(Debug)]
pub enum Phase {
    /// The text is to be sent.
    Sending(String),
    /// A text frame is awaited, to be held against the expectation.
    Awaiting(Expectation),
    /// The script has ended.
    Finished(TestOutcome),
}

/// A [`Phase`] with its texts as sequences of characters.
pub enum PhaseModel {
    Sending(Seq<char>),
    Awaiting(ExpectationModel),
    Finished(Option<FailureModel>),
}

impl View for Phase {
    type V = PhaseModel;

    open spec fn view(&self) -> PhaseModel {
        match self {
            Phase::Sending(text) => PhaseModel::Sending(text@),
            Phase::Awaiting(expectation) => PhaseModel::Awaiting(expectation@),
            Phase::Finished(outcome) => PhaseModel::Finished(outcome@),
        }
    }
}

/// What the caller is to do next.
#[derive(Debug, PartialEq, Eq)]
pub enum Action {
    /// Send the text as one text frame, and report `Sent` or `SendFailed`.
    Send(String),
    /// Read one frame, and report `Received` or `ReadFailed`.
    Receive,
    /// Nothing more: the script has ended with this outcome.
    Finish(TestOutcome),
}

/// The phase that a command with its payload leads to, or `None` for a
/// comment, which leads nowhere.
///
/// `S` sends the payload. `E`, `R` and `J` await a text frame: equal to the
/// payload, matched by the payload as a pattern, or including the payload as
/// a JSON document. A payload of `R` that does not compile ends the script at
/// once, and so does any command character other than these and `#`.
pub open spec fn dispatched(command: char, payload: Seq<char>) -> Option<PhaseModel> {
    match command_of(command) {
        Some(Command::Send) => Some(PhaseModel::Sending(payload)),
        Some(Command::ExpectText) => Some(PhaseModel::Awaiting(ExpectationModel::Text(payload))),
        Some(Command::ExpectRegex) => if compiles(payload) {
            Some(PhaseModel::Awaiting(ExpectationModel::Matching(payload)))
        } else {
            Some(PhaseModel::Finished(Some(FailureModel::InvalidRegex)))
        },
        Some(Command::ExpectJson) => Some(PhaseModel::Awaiting(ExpectationModel::Json(payload))),
        Some(Command::Comment) => None,
        None => Some(PhaseModel::Finished(Some(FailureModel::UnknownCommand { cmd: command }))),
    }
}

/// The phase that a line leads to, or `None` for a comment. A line that is
/// no comment and not a script line either ends the script with the reason
/// why it is none.
pub open spec fn planned(line: Seq<char>) -> Option<PhaseModel> {
    if is_comment(line) {
        None
    } else {
        match line_failure(line) {
            Some(failure) => Some(PhaseModel::Finished(Some(failure))),
            None => dispatched(line[0], line.skip(2)),
        }
    }
}

/// The judgement on a `J` line once both documents have been read: the
/// failure, or `None` where the received document includes the expected one.
///
/// `wanted` is what the line's payload was read as and `given` what the
/// received text was read as. An unreadable payload is reported before an
/// unreadable received text.
pub open spec fn json_verdict(
    wanted: Option<JsonModel>,
    given: Option<JsonModel>,
    expected: Seq<char>,
    got: Seq<char>,
) -> Option<FailureModel> {
    match wanted {
        None => Some(FailureModel::InvalidExpectedJson { expected }),
        Some(wanted_tree) => match given {
            None => Some(FailureModel::InvalidReceivedJson { got }),
            Some(given_tree) => if includes(given_tree, wanted_tree) {
                None
            } else {
                Some(FailureModel::JsonNotIncluded { got, expected })
            },
        },
    }
}

/// The judgement on a received text: the failure, or `None` where the text
/// meets the expectation.
pub open spec fn verdict(expectation: ExpectationModel, got: Seq<char>) -> Option<FailureModel> {
    match expectation {
        ExpectationModel::Text(expected) => if got == expected {
            None
        } else {
            Some(FailureModel::UnexpectedText { expected, got })
        },
        ExpectationModel::Matching(pattern) => if finds(pattern, got) {
            None
        } else {
            Some(FailureModel::RegexMismatch { got, pattern })
        },
        ExpectationModel::Json(expected) => json_verdict(
            document(expected),
            document(got),
            expected,
            got,
        ),
    }
}

/// Decides what a parsed line asks for: see [`dispatched`].
pub fn dispatch(line: ScriptLine) -> (phase: Option<Phase>)
    ensures
        match phase {
            Some(p) => dispatched(line.command, line.payload@) == Some(p@),
            None => dispatched(line.command, line.payload@) is None,
        },
{
    let ScriptLine { command, payload } = line;
    match Command::from_tag(command) {
        Some(Command::Send) => Some(Phase::Sending(payload)),
        Some(Command::ExpectText) => Some(Phase::Awaiting(Expectation::Text(payload))),
        Some(Command::ExpectRegex) => match Pattern::compile(payload.as_str()) {
            Some(pattern) => Some(Phase::Awaiting(Expectation::Matching(pattern))),
            None => Some(Phase::Finished(TestOutcome::Failure(Failure::InvalidRegex))),
        },
        Some(Command::ExpectJson) => Some(Phase::Awaiting(Expectation::Json(payload))),
        Some(Command::Comment) => None,
        None => Some(Phase::Finished(TestOutcome::Failure(Failure::UnknownCommand { cmd: command }))),
    }
}

/// Decides what a line of the script asks for: see [`planned`].
pub fn plan(line: &str) -> (phase: Option<Phase>)
    ensures
        match phase {
            Some(p) => planned(line@) == Some(p@),
            None => planned(line@) is None,
        },
{
    if is_comment_line(line) {
        return None;
    }
    match parse_line(line) {
        Ok(script_line) => dispatch(script_line),
        Err(failure) => Some(Phase::Finished(TestOutcome::Failure(failure))),
    }
}

/// What a text was read as, as a tree.
pub open spec fn tree_of(read: Option<Json>) -> Option<JsonModel> {
    match read {
        Some(value) => Some(value@),
        None => None,
    }
}

/// Judges a `J` line once both documents have been read: see
/// [`json_verdict`].
pub fn judge_json(
    wanted: Option<Json>,
    given: Option<Json>,
    expected: String,
    got: String,
) -> (failure: Option<Failure>)
    ensures
        match failure {
            Some(f) => json_verdict(tree_of(wanted), tree_of(given), expected@, got@) == Some(f@),
            None => json_verdict(tree_of(wanted), tree_of(given), expected@, got@) is None,
        },
{
    match wanted {
        None => Some(Failure::InvalidExpectedJson { expected }),
        Some(wanted_tree) => match given {
            None => Some(Failure::InvalidReceivedJson { got }),
            Some(given_tree) => if does_json_include(&given_tree, &wanted_tree) {
                None
            } else {
                Some(Failure::JsonNotIncluded { got, expected })
            },
        },
    }
}

/// Judges a received text against an expectation: see [`verdict`].
pub fn judge(expectation: &Expectation, got: String) -> (failure: Option<Failure>)
    ensures
        match failure {
            Some(f) => verdict(expectation@, got@) == Some(f@),
            None => verdict(expectation@, got@) is None,
        },
{
    match expectation {
        Expectation::Text(expected) => if got == *expected {
            None
        } else {
            Some(Failure::UnexpectedText { expected: expected.clone(), got })
        },
        Expectation::Matching(pattern) => if pattern.is_match(got.as_str()) {
            None
        } else {
            Some(Failure::RegexMismatch { got, pattern: pattern.source().clone() })
        },
        Expectation::Json(expected) => {
            let wanted = parse_json(expected.as_str());
            let given = parse_json(got.as_str());
            judge_json(wanted, given, expected.clone(), got)
        },
    }
}

/// The state of an [`Interpreter`]: the script, the number of its lines that
/// have been taken up, and the phase.
pub struct InterpreterModel {
    pub lines: Seq<Seq<char>>,
    pub position: nat,
    pub phase: PhaseModel,
}

/// The state reached by taking up the lines of the script from `position`
/// on, in their order, until one asks for something.
///
/// Comments are passed over. The first other line is taken up and decides
/// the phase: it asks for a text to be sent or awaited, or it ends the script
/// with a failure. Where no such line is left the script ends in success.
pub open spec fn advanced(lines: Seq<Seq<char>>, position: nat) -> InterpreterModel
    decreases lines.len() - position,
{
    if position >= lines.len() {
        InterpreterModel { lines, position, phase: PhaseModel::Finished(None) }
    } else {
        match planned(lines[position as int]) {
            Some(phase) => InterpreterModel { lines, position: position + 1, phase },
            None => advanced(lines, position + 1),
        }
    }
}

/// The state that follows `state` on `event`.
///
/// A finished script stays finished, whatever is reported. While a text is
/// being sent, `Sent` moves on to the following lines and `SendFailed` ends
/// the script. While a text frame is awaited, a text is judged against the
/// expectation: the script moves on where it is met and ends where it is
/// not; a close frame, a binary frame and a failed read end the script; ping
/// and pong frames change nothing. An event that does not answer the action
/// asked for changes nothing either.
pub open spec fn next(state: InterpreterModel, event: Event) -> InterpreterModel {
    match state.phase {
        PhaseModel::Finished(_) => state,
        PhaseModel::Sending(_) => match event {
            Event::Sent => advanced(state.lines, state.position),
            Event::SendFailed => InterpreterModel {
                phase: PhaseModel::Finished(Some(FailureModel::SendFailed)),
                ..state
            },
            _ => state,
        },
        PhaseModel::Awaiting(expectation) => match text_read(event) {
            None => state,
            Some(Err(failure)) => InterpreterModel {
                phase: PhaseModel::Finished(Some(failure)),
                ..state
            },
            Some(Ok(text)) => match verdict(expectation, text) {
                Some(failure) => InterpreterModel {
                    phase: PhaseModel::Finished(Some(failure)),
                    ..state
                },
                None => advanced(state.lines, state.position),
            },
        },
    }
}

/// Takes up the lines from `position` on until one asks for something: see
/// [`advanced`].
fn advance(lines: &Vec<String>, position: usize) -> (reached: (usize, Phase))
    ensures
        advanced(texts(lines@), position as nat) == (InterpreterModel {
            lines: texts(lines@),
            position: reached.0 as nat,
            phase: reached.1@,
        }),
{
    let mut at: usize = position;
    while at < lines.len()
        invariant
            advanced(texts(lines@), at as nat) == advanced(texts(lines@), position as nat),
        decreases lines.len() - at,
    {
        match plan(lines[at].as_str()) {
            Some(phase) => {
                return (at + 1, phase);
            },
            None => {
                at = at + 1;
            },
        }
    }
    (at, Phase::Finished(TestOutcome::Success))
}

/// What is to be done with an interpreter on an event.
enum Decision {
    Stay,
    Advance,
    Fail(Failure),
}

/// Carries out one script, line by line.
#[derive(Debug)]
pub struct Interpreter {
    lines: Vec<String>,
    position: usize,
    phase: Phase,
}

impl View for Interpreter {
    type V = InterpreterModel;

    closed spec fn view(&self) -> InterpreterModel {
        InterpreterModel {
            lines: texts(self.lines@),
            position: self.position as nat,
            phase: self.phase@,
        }
    }
}

impl Interpreter {
    /// Starts on a script: takes up its lines until the first that asks for
    /// something.
    pub fn new(lines: Vec<String>) -> (interpreter: Interpreter)
        ensures
            interpreter@ == advanced(texts(lines@), 0),
    {
        let (position, phase) = advance(&lines, 0);
        Interpreter { lines, position, phase }
    }

    /// The action that the interpreter is waiting on: the one its phase
    /// stands for.
    pub fn action(&self) -> (action: Action)
        ensures
            match action {
                Action::Send(text) => self@.phase == PhaseModel::Sending(text@),
                Action::Receive => self@.phase is Awaiting,
                Action::Finish(outcome) => self@.phase == PhaseModel::Finished(outcome@),
            },
    {
        match &self.phase {
            Phase::Sending(text) => Action::Send(text.clone()),
            Phase::Awaiting(_) => Action::Receive,
            Phase::Finished(outcome) => Action::Finish(outcome.clone()),
        }
    }

    /// Takes the outcome of the action asked for, moves to the state that
    /// follows, and names the next action: see [`next`].
    pub fn step(&mut self, event: Event) -> (action: Action)
        ensures
            final(self)@ == next(old(self)@, event),
            match action {
                Action::Send(text) => final(self)@.phase == PhaseModel::Sending(text@),
                Action::Receive => final(self)@.phase is Awaiting,
                Action::Finish(outcome) => final(self)@.phase == PhaseModel::Finished(outcome@),
            },
    {
        let decision = match &self.phase {
            Phase::Finished(_) => Decision::Stay,
            Phase::Sending(_) => match event {
                Event::Sent => Decision::Advance,
                Event::SendFailed => Decision::Fail(Failure::SendFailed),
                _ => Decision::Stay,
            },
            Phase::Awaiting(expectation) => match read_text(event) {
                None => Decision::Stay,
                Some(Err(failure)) => Decision::Fail(failure),
                Some(Ok(text)) => match judge(expectation, text) {
                    Some(failure) => Decision::Fail(failure),
                    None => Decision::Advance,
                },
            },
        };
        match decision {
            Decision::Stay => {},
            Decision::Advance => {
                let (position, phase) = advance(&self.lines, self.position);
                self.position = position;
                self.phase = phase;
            },
            Decision::Fail(failure) => {
                self.phase = Phase::Finished(TestOutcome::Failure(failure));
            },
        }
        self.action()
    }
}

/// A ping or a pong that arrives while a text frame is awaited is not taken
/// for the awaited message and does not fail the script: the interpreter
/// stays as it is, still awaiting.
pub proof fn lemma_control_frames_are_passed_over(state: InterpreterModel, event: Event)
    requires
        state.phase is Awaiting,
        event == Event::Received(Frame::Ping) || event == Event::Received(Frame::Pong),
    ensures
        next(state, event) == state,
{
}

/// A line with an unknown command fails with `UnknownCommand`, whatever the
/// transport does: the line alone decides it.
pub proof fn lemma_unknown_command_fails(line: Seq<char>)
    requires
        line_failure(line) is None,
        command_of(line[0]) is None,
    ensures
        planned(line) == Some(
            PhaseModel::Finished(Some(FailureModel::UnknownCommand { cmd: line[0] })),
        ),
{
}

/// Where the next line to take up fails, the script ends there with that
/// line's failure: nothing is asked of the transport.
pub proof fn lemma_failing_line_ends_script(
    lines: Seq<Seq<char>>,
    position: nat,
    failure: FailureModel,
)
    requires
        position < lines.len(),
        planned(lines[position as int]) == Some(PhaseModel::Finished(Some(failure))),
    ensures
        advanced(lines, position).phase == PhaseModel::Finished(Some(failure)),
{
}

/// The first failure ends the script: once finished, the interpreter stays
/// in the same state with the same outcome, whatever is reported to it.
pub proof fn lemma_finished_is_final(state: InterpreterModel, event: Event)
    requires
        state.phase is Finished,
    ensures
        next(state, event) == state,
{
}

/// Taking up lines keeps the script and never goes back in it.
pub proof fn lemma_advanced_goes_forward(lines: Seq<Seq<char>>, position: nat)
    ensures
        advanced(lines, position).lines == lines,
        advanced(lines, position).position >= position,
        position <= lines.len() ==> advanced(lines, position).position <= lines.len(),
    decreases lines.len() - position,
{
    if position < lines.len() && planned(lines[position as int]) is None {
        lemma_advanced_goes_forward(lines, position + 1);
    }
}

/// The lines are carried out in their order: no event changes the script or
/// takes the interpreter back in it.
pub proof fn lemma_next_goes_forward(state: InterpreterModel, event: Event)
    ensures
        next(state, event).lines == state.lines,
        next(state, event).position >= state.position,
{
    lemma_advanced_goes_forward(state.lines, state.position);
}

/// Comments have no effect: the state reached from a comment line is the
/// state reached from the line after it.
pub proof fn lemma_comment_has_no_effect(lines: Seq<Seq<char>>, position: nat)
    requires
        position < lines.len(),
        is_comment(lines[position as int]),
    ensures
        advanced(lines, position) == advanced(lines, position + 1),
{
}

/// A script ends in success only when every one of its lines has been taken
/// up.
pub proof fn lemma_success_takes_every_line(lines: Seq<Seq<char>>, position: nat)
    requires
        position <= lines.len(),
        advanced(lines, position).phase == PhaseModel::Finished(None),
    ensures
        advanced(lines, position).position == lines.len(),
    decreases lines.len() - position,
{
    if position < lines.len() {
        let line = lines[position as int];
        if planned(line) is None {
            lemma_success_takes_every_line(lines, position + 1);
        }
    }
}

} // verus!
