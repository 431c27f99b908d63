//! The kinds of failure the engine reports.

use vstd::prelude::*;

verus! {

/// A failure raised while a shell is being assembled or a line is dispatched.
#[derive(Debug, Clone, PartialEq, Eq)]
pub enum Error {
    /// The named parameter would be both required and defaulted.
    IllegalDefaultError(String),
    /// The named parameter is required but follows an optional one.
    IllegalRequiredError(String),
    /// The named command was given no value for the named required parameter.
    MissingRequiredArgument(String, String),
    /// The named command was given more arguments than the stated maximum.
    TooManyArguments(String, usize),
    /// No command of this name is registered.
    UnknownCommand(String),
    /// The text of a bound argument does not denote a value of the requested type.
    ValueConversionError(String),
    /// The pattern engine refused the token pattern, so the line could not be split.
    TokenPatternRejected,
}

/// The mathematical content of an [`Error`].
pub enum ErrorView {
    IllegalDefaultError(Seq<char>),
    IllegalRequiredError(Seq<char>),
    MissingRequiredArgument(Seq<char>, Seq<char>),
    TooManyArguments(Seq<char>, nat),
    UnknownCommand(Seq<char>),
    ValueConversionError(Seq<char>),
    TokenPatternRejected,
}

impl View for Error {
    type V = ErrorView;

    open spec fn view(&self) -> ErrorView {
        match self {
            Error::IllegalDefaultError(parameter) => ErrorView::IllegalDefaultError(parameter@),
            Error::IllegalRequiredError(parameter) => ErrorView::IllegalRequiredError(parameter@),
            Error::MissingRequiredArgument(command, parameter) => ErrorView::MissingRequiredArgument(
                command@,
                parameter@,
            ),
            Error::TooManyArguments(command, max_allowed) => ErrorView::TooManyArguments(
                command@,
                *max_allowed as nat,
            ),
            Error::UnknownCommand(command) => ErrorView::UnknownCommand(command@),
            Error::ValueConversionError(text) => ErrorView::ValueConversionError(text@),
            Error::TokenPatternRejected => ErrorView::TokenPatternRejected,
        }
    }
}

/// `From<T> for T`, the conversion of a value to its own type, returns the
/// argument unchanged.
pub assume_specification<U>[ <U as From<U>>::from ](value: U) -> (same: U)
    ensures
        same == value,
;

/// The view of a fallible step: the view of the value it produced, or of the
/// failure it raised.
pub open spec fn outcome<T: View>(r: Result<T, Error>) -> Result<T::V, ErrorView> {
    match r {
        Ok(value) => Ok(value@),
        Err(error) => Err(error@),
    }
}

/// The failure of a fallible step, if it failed.
pub open spec fn failure_of<T>(r: Result<T, Error>) -> Option<Error> {
    match r {
        Ok(_) => None,
        Err(error) => Some(error),
    }
}

} // verus!
