//! The decisions of the evaluation shell.
//!
//! The shell reads, evaluates and prints in turn. Reading a line, running the
//! interpreter and writing to the console are done by the caller; what to do
//! next is decided here, from the phase the shell is in and from what the
//! caller reports back.

use crate::format::{format_js_value, render};
use crate::value::{DynamicValue, ValueModel};
use vstd::prelude::*;
use vstd::string::*;

verus! {

/// How the shell runs: once over a file, or line by line.
#[derive(Debug, PartialEq, Eq)]
pub enum Mode {
    /// Evaluate the text of the file at this path once, report, and stop.
    Batch(String),
    /// Prompt, read a line, evaluate it and print, until the input ends.
    Interactive,
}

/// Where the interactive shell stands in its cycle.
#[derive(Debug, Clone, Copy, PartialEq, Eq, Structural)]
pub enum Phase {
    /// Nothing has happened yet.
    Start,
    /// A prompt is shown and a line is awaited.
    Prompting,
    /// A line is with the interpreter.
    Evaluating,
    /// A line of output is being written.
    Printing,
    /// The shell has stopped; nothing follows.
    Terminated,
}

/// What the caller reports to the shell.
#[derive(Debug, PartialEq, Eq)]
pub enum Event {
    /// The interpreter and the input are set up.
    Started,
    /// A line of text was read.
    Line(String),
    /// The user interrupted the read.
    Interrupted,
    /// The input has ended.
    EndOfInput,
    /// Reading failed for another reason, described by the text.
    InputFailed(String),
    /// The interpreter evaluated the line to this value.
    Evaluated(DynamicValue),
    /// The interpreter failed on the line, with this message.
    EvaluationFailed(String),
    /// The line of output was written and flushed.
    Printed,
}

/// What the shell asks the caller to do next.
#[derive(Debug, PartialEq, Eq)]
pub enum Action {
    /// Show the prompt and read one line.
    ReadLine { prompt: String },
    /// Append the text to the input history, then evaluate it as a standalone
    /// expression.
    Evaluate { source: String },
    /// Write the line, flush, and report back.
    Print { line: String },
    /// Write the line and stop.
    Exit { line: String },
}

/// Model of an event: text as characters, a value as its model.
pub ghost enum EventModel {
    Started,
    Line(Seq<char>),
    Interrupted,
    EndOfInput,
    InputFailed(Seq<char>),
    Evaluated(ValueModel),
    EvaluationFailed(Seq<char>),
    Printed,
}

/// Model of an action: text as characters.
pub ghost enum ActionModel {
    ReadLine { prompt: Seq<char> },
    Evaluate { source: Seq<char> },
    Print { line: Seq<char> },
    Exit { line: Seq<char> },
}

impl View for Event {
    type V = EventModel;

    open spec fn view(&self) -> EventModel {
        match self {
            Event::Started => EventModel::Started,
            Event::Line(text) => EventModel::Line(text@),
            Event::Interrupted => EventModel::Interrupted,
            Event::EndOfInput => EventModel::EndOfInput,
            Event::InputFailed(text) => EventModel::InputFailed(text@),
            Event::Evaluated(value) => EventModel::Evaluated(value@),
            Event::EvaluationFailed(text) => EventModel::EvaluationFailed(text@),
            Event::Printed => EventModel::Printed,
        }
    }
}

impl View for Action {
    type V = ActionModel;

    open spec fn view(&self) -> ActionModel {
        match self {
            Action::ReadLine { prompt } => ActionModel::ReadLine { prompt: prompt@ },
            Action::Evaluate { source } => ActionModel::Evaluate { source: source@ },
            Action::Print { line } => ActionModel::Print { line: line@ },
            Action::Exit { line } => ActionModel::Exit { line: line@ },
        }
    }
}

/// The prompt shown before each read.
pub open spec fn prompt_text() -> Seq<char> {
    "> "@
}

/// The line written when the input is interrupted or ends.
pub open spec fn farewell_text() -> Seq<char> {
    "exit"@
}

/// The line written for a failure: a fixed prefix, then the message as it is.
pub open spec fn error_text(message: Seq<char>) -> Seq<char> {
    "Error: "@ + message
}

/// The line written for the outcome of an evaluation: the canonical text of
/// the value, or the error line of the message.
pub open spec fn outcome_text(outcome: Result<ValueModel, Seq<char>>) -> Seq<char> {
    match outcome {
        Ok(value) => render(value),
        Err(message) => error_text(message),
    }
}

/// The model of the outcome of an evaluation.
pub open spec fn outcome_model(outcome: Result<DynamicValue, String>) -> Result<
    ValueModel,
    Seq<char>,
> {
    match outcome {
        Ok(value) => Ok(value@),
        Err(message) => Err(message@),
    }
}

/// The transition of the interactive shell.
///
/// The cycle is start, prompt, evaluate, print, prompt again. The shell
/// stops from the prompt only: with the farewell when the read is interrupted
/// or the input ends, with an error line when the read fails otherwise. A
/// failed evaluation is printed like a value and the cycle goes on. An event
/// that the phase does not wait for has no transition.
pub open spec fn transition(phase: Phase, event: EventModel) -> Option<(Phase, ActionModel)> {
    match (phase, event) {
        (Phase::Start, EventModel::Started) => Some(
            (Phase::Prompting, ActionModel::ReadLine { prompt: prompt_text() }),
        ),
        (Phase::Prompting, EventModel::Line(text)) => Some(
            (Phase::Evaluating, ActionModel::Evaluate { source: text }),
        ),
        (Phase::Prompting, EventModel::Interrupted) => Some(
            (Phase::Terminated, ActionModel::Exit { line: farewell_text() }),
        ),
        (Phase::Prompting, EventModel::EndOfInput) => Some(
            (Phase::Terminated, ActionModel::Exit { line: farewell_text() }),
        ),
        (Phase::Prompting, EventModel::InputFailed(message)) => Some(
            (Phase::Terminated, ActionModel::Exit { line: error_text(message) }),
        ),
        (Phase::Evaluating, EventModel::Evaluated(value)) => Some(
            (Phase::Printing, ActionModel::Print { line: outcome_text(Ok(value)) }),
        ),
        (Phase::Evaluating, EventModel::EvaluationFailed(message)) => Some(
            (Phase::Printing, ActionModel::Print { line: outcome_text(Err(message)) }),
        ),
        (Phase::Printing, EventModel::Printed) => Some(
            (Phase::Prompting, ActionModel::ReadLine { prompt: prompt_text() }),
        ),
        _ => None,
    }
}

/// The line written for a failure always begins with the same prefix, and
/// the message follows it unchanged.
pub proof fn lemma_error_line_begins_with_prefix(message: Seq<char>)
    ensures
        error_text(message).len() == 7 + message.len(),
        error_text(message).subrange(0, 7) == seq!['E', 'r', 'r', 'o', 'r', ':', ' '],
        error_text(message).skip(7) == message,
{
    reveal_strlit("Error: ");
    assert(error_text(message).subrange(0, 7) =~= seq!['E', 'r', 'r', 'o', 'r', ':', ' ']);
    assert(error_text(message).skip(7) =~= message);
}

/// The shell stops from the prompt only, and only when the read is
/// interrupted, the input ends, or the read fails. Whatever the interpreter
/// returns, the cycle goes on.
pub proof fn lemma_stops_only_from_prompt(phase: Phase, event: EventModel)
    requires
        transition(phase, event) matches Some((to, _)) && to == Phase::Terminated,
    ensures
        phase == Phase::Prompting,
        event is Interrupted || event is EndOfInput || event is InputFailed,
{
}

/// Once stopped, the shell accepts no event; and no event leads back to the
/// start.
pub proof fn lemma_stopped_is_final(phase: Phase, event: EventModel)
    ensures
        phase == Phase::Terminated ==> transition(phase, event) is None,
        transition(phase, event) matches Some((to, _)) ==> to != Phase::Start,
{
}

/// Every phase but the last waits for something: the cycle never gets stuck
/// before the shell has stopped.
pub proof fn lemma_cycle_goes_on(phase: Phase)
    requires
        phase != Phase::Terminated,
    ensures
        exists|event: EventModel| transition(phase, event) is Some,
{
    match phase {
        Phase::Start => {
            assert(transition(phase, EventModel::Started) is Some);
        },
        Phase::Prompting => {
            assert(transition(phase, EventModel::EndOfInput) is Some);
        },
        Phase::Evaluating => {
            assert(transition(phase, EventModel::Evaluated(ValueModel::Null)) is Some);
        },
        Phase::Printing => {
            assert(transition(phase, EventModel::Printed) is Some);
        },
        Phase::Terminated => {},
    }
}

/// Chooses the mode from the optional file argument: batch over the file
/// when a path is given, interactive otherwise.
pub fn select_mode(file: Option<String>) -> (mode: Mode)
    ensures
        match file {
            Some(path) => mode == Mode::Batch(path),
            None => mode == Mode::Interactive,
        },
{
    match file {
        Some(path) => Mode::Batch(path),
        None => Mode::Interactive,
    }
}

/// The line written for a failure with this message.
pub fn error_line(message: &str) -> (line: String)
    ensures
        line@ == error_text(message@),
{
    let mut line = String::from_str("Error: ");
    line.append(message);
    line
}

/// The line written for the outcome of an evaluation.
pub fn outcome_line(outcome: &Result<DynamicValue, String>) -> (line: String)
    ensures
        line@ == outcome_text(outcome_model(*outcome)),
{
    match outcome {
        Ok(value) => format_js_value(value),
        Err(message) => error_line(message.as_str()),
    }
}

/// Decides what the interactive shell does next.
///
/// Returns the next phase and the action for the caller, or `None` when the
/// phase does not wait for this event.
pub fn step(phase: Phase, event: Event) -> (next: Option<(Phase, Action)>)
    ensures
        next is Some <==> transition(phase, event@) is Some,
        next matches Some((to, action)) ==> transition(phase, event@) == Some((to, action@)),
{
    match phase {
        Phase::Start => match event {
            Event::Started => Some(
                (Phase::Prompting, Action::ReadLine { prompt: String::from_str("> ") }),
            ),
            _ => None,
        },
        Phase::Prompting => match event {
            Event::Line(text) => Some((Phase::Evaluating, Action::Evaluate { source: text })),
            Event::Interrupted => Some(
                (Phase::Terminated, Action::Exit { line: String::from_str("exit") }),
            ),
            Event::EndOfInput => Some(
                (Phase::Terminated, Action::Exit { line: String::from_str("exit") }),
            ),
            Event::InputFailed(message) => Some(
                (Phase::Terminated, Action::Exit { line: error_line(message.as_str()) }),
            ),
            _ => None,
        },
        Phase::Evaluating => match event {
            Event::Evaluated(value) => Some(
                (Phase::Printing, Action::Print { line: format_js_value(&value) }),
            ),
            Event::EvaluationFailed(message) => Some(
                (Phase::Printing, Action::Print { line: error_line(message.as_str()) }),
            ),
            _ => None,
        },
        Phase::Printing => match event {
            Event::Printed => Some(
                (Phase::Prompting, Action::ReadLine { prompt: String::from_str("> ") }),
            ),
            _ => None,
        },
        Phase::Terminated => None,
    }
}

} // verus!
