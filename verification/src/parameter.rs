//! One positional argument slot of a command.

use crate::error::{outcome, Error, ErrorView};
use vstd::prelude::*;

verus! {

/// A positional parameter: required, optional, or optional with a default.
#[derive(Debug, Clone, PartialEq, Eq)]
pub struct Parameter {
    name: String,
    required: bool,
    default: Option<String>,
}

/// The mathematical content of a [`Parameter`].
pub struct ParameterView {
    pub name: Seq<char>,
    pub required: bool,
    pub default: Option<Seq<char>>,
}

impl ParameterView {
    /// A parameter is never both required and defaulted.
    pub open spec fn consistent(self) -> bool {
        !(self.required && self.default is Some)
    }

    /// A fresh parameter: optional, without a default.
    pub open spec fn fresh(name: Seq<char>) -> ParameterView {
        ParameterView { name, required: false, default: None }
    }

    /// What marking the parameter as required (or not) yields.
    pub open spec fn with_required(self, required: bool) -> Result<ParameterView, ErrorView> {
        if required && self.default is Some {
            Err(ErrorView::IllegalDefaultError(self.name))
        } else {
            Ok(ParameterView { required, ..self })
        }
    }

    /// What giving the parameter a default yields.
    pub open spec fn with_default(self, value: Seq<char>) -> Result<ParameterView, ErrorView> {
        if self.required {
            Err(ErrorView::IllegalDefaultError(self.name))
        } else {
            Ok(ParameterView { default: Some(value), ..self })
        }
    }
}

impl View for Parameter {
    type V = ParameterView;

    closed spec fn view(&self) -> ParameterView {
        ParameterView {
            name: self.name@,
            required: self.required,
            default: match self.default {
                Some(value) => Some(value@),
                None => None,
            },
        }
    }
}

impl Parameter {
    /// Creates an optional parameter without a default.
    pub fn new(name: &str) -> (parameter: Parameter)
        ensures
            parameter@ == ParameterView::fresh(name@),
    {
        Parameter { name: name.to_owned(), required: false, default: None }
    }

    /// Marks the parameter as required or optional. A parameter that already
    /// has a default cannot become required.
    pub fn set_required(self, required: bool) -> (result: Result<Parameter, Error>)
        ensures
            outcome(result) == self@.with_required(required),
    {
        if required && self.default.is_some() {
            return Err(Error::IllegalDefaultError(self.name));
        }
        let mut parameter = self;
        parameter.required = required;
        Ok(parameter)
    }

    /// Gives the parameter a default. A required parameter cannot have one.
    pub fn set_default(self, default: &str) -> (result: Result<Parameter, Error>)
        ensures
            outcome(result) == self@.with_default(default@),
    {
        if self.required {
            return Err(Error::IllegalDefaultError(self.name));
        }
        let mut parameter = self;
        parameter.default = Some(default.to_owned());
        Ok(parameter)
    }

    /// The parameter's name.
    pub fn name(&self) -> (name: &str)
        ensures
            name@ == self@.name,
    {
        self.name.as_str()
    }

    /// Whether an argument must be supplied for the parameter.
    pub fn is_required(&self) -> (required: bool)
        ensures
            required == self@.required,
    {
        self.required
    }

    /// The value bound to the parameter when no argument is supplied, if any.
    pub fn default_value(&self) -> (default: Option<&str>)
        ensures
            default is Some == self@.default is Some,
            default matches Some(value) ==> self@.default == Some(value@),
    {
        match &self.default {
            Some(value) => Some(value.as_str()),
            None => None,
        }
    }
}

/// Every parameter that a chain of configuration steps yields is consistent,
/// whatever it started from.
pub proof fn lemma_configured_parameter_is_consistent(
    parameter: ParameterView,
    required: bool,
    value: Seq<char>,
)
    ensures
        ParameterView::fresh(parameter.name).consistent(),
        parameter.with_required(required) matches Ok(next) ==> next.consistent(),
        parameter.with_default(value) matches Ok(next) ==> next.consistent(),
{
}

/// Asking for a parameter that is both required and defaulted fails with
/// `IllegalDefaultError` naming the parameter, whichever of the two is asked
/// for first.
pub proof fn lemma_required_excludes_default(parameter: ParameterView, value: Seq<char>)
    ensures
        parameter.with_required(true) matches Ok(required) ==> required.with_default(value) == Err::<
            ParameterView,
            ErrorView,
        >(ErrorView::IllegalDefaultError(parameter.name)),
        parameter.with_default(value) matches Ok(defaulted) ==> defaulted.with_required(true)
            == Err::<ParameterView, ErrorView>(ErrorView::IllegalDefaultError(parameter.name)),
{
}

} // verus!
