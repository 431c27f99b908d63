//! What goes into a turn of the shell's loop, and what comes out of it.

use crate::error::{Error, ErrorView};
use vstd::prelude::*;

verus! {

/// What the shell answers to one line.
#[derive(Debug, Clone, PartialEq, Eq)]
pub enum Reply {
    /// Nothing is to be shown.
    Nothing,
    /// The text that the handler of the command answered with.
    Output(String),
    /// Help on the whole shell was asked for: the help snapshot is to be
    /// presented.
    GeneralHelp,
    /// Help on one command was asked for: the entry at this place of the help
    /// snapshot is to be presented.
    CommandHelp(usize),
    /// Help was asked for on this name, and the help snapshot has no entry
    /// for it.
    HelpNotFound(String),
}

/// What the source of lines yields when the shell asks for the next line.
#[derive(Debug, Clone, PartialEq, Eq)]
pub enum Input {
    /// A line of text.
    Line(String),
    /// The input has ended.
    EndOfInput,
    /// The user has interrupted the shell.
    Interrupt,
    /// The source of lines has failed for good.
    Failure,
}

/// Where the shell stands between two lines.
#[derive(Debug, Clone, Copy, PartialEq, Eq, Structural)]
pub enum State {
    /// Ready for the next line.
    Idle,
    /// Left in good order.
    Quit,
    /// Left on a failure.
    Fatal,
}

/// What the program around the shell is to do after one turn of the loop.
#[derive(Debug, Clone, PartialEq, Eq)]
pub enum Step<E> {
    /// Present the reply and ask for the next line.
    Continue(Reply),
    /// Tell the user of the failure and ask for the next line. A shell without
    /// an error hook of its own answers every failure so.
    Report(E),
    /// Leave the loop in good order.
    Quit,
    /// Leave the loop on a failure: the one that the error hook gave back,
    /// or none where the source of lines has failed.
    Fatal(Option<Error>),
}

impl<E> Step<E> {
    /// The state that the step leaves the shell in.
    pub open spec fn next_state(&self) -> State {
        match self {
            Step::Continue(_) => State::Idle,
            Step::Report(_) => State::Idle,
            Step::Quit => State::Quit,
            Step::Fatal(_) => State::Fatal,
        }
    }

    /// The state that the step leaves the shell in.
    pub fn state(&self) -> (state: State)
        ensures
            state == self.next_state(),
    {
        match self {
            Step::Continue(_) => State::Idle,
            Step::Report(_) => State::Idle,
            Step::Quit => State::Quit,
            Step::Fatal(_) => State::Fatal,
        }
    }
}

/// The name under which help is asked for, unless a command has taken it.
pub const HELP: &'static str = "help";

/// `failure` is what the engine's failure `cause` becomes in the host's
/// own kind of failure.
pub open spec fn converted<E: From<Error>>(cause: Error, failure: E) -> bool {
    call_ensures(E::from, (cause,), failure)
}

/// `result` is the failure that an engine failure of content `error` converts to.
pub open spec fn raised<T, E: From<Error>>(result: Result<T, E>, error: ErrorView) -> bool {
    result matches Err(failure) && exists|cause: Error|
        #[trigger] cause@ == error && converted(cause, failure)
}

/// The handler's answer that a result of dispatch stands for.
pub open spec fn answer_of<E>(result: Result<Reply, E>) -> Result<Option<String>, E> {
    match result {
        Ok(Reply::Output(text)) => Ok(Some(text)),
        Ok(_) => Ok(None),
        Err(failure) => Err(failure),
    }
}

} // verus!
