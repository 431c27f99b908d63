//! A named operation with its parameters and its handler.

use crate::error::{outcome, Error, ErrorView};
use crate::parameter::{Parameter, ParameterView};
use crate::text::optional_text;
use crate::validation::{parameter_views, required_first};
use crate::value::{texts, Arguments};
use std::marker::PhantomData;
use vstd::prelude::*;

verus! {

/// The callable behind a command. It receives the arguments bound for one
/// line and exclusive access to the shell's context for the length of the
/// call, and answers with a text to show, with nothing, or with a failure of
/// the host's own kind.
pub trait Handler<Context, E> {
    /// What a call may do: `effect` holds of the arguments handed in, the
    /// context before and after the call, and the answer. A handler that
    /// says nothing of itself may do anything.
    open spec fn effect(
        &self,
        arguments: Map<Seq<char>, Seq<char>>,
        before: Context,
        after: Context,
        answer: Result<Option<String>, E>,
    ) -> bool {
        true
    }

    fn call(&self, arguments: Arguments, context: &mut Context) -> (answer: Result<
        Option<String>,
        E,
    >)
        ensures
            self.effect(texts(arguments@), *old(context), *final(context), answer),
    ;
}

/// A boxed handler answers as the handler in the box does. A registry whose
/// commands have handlers of different types holds them boxed.
impl<Context, E> Handler<Context, E> for Box<dyn Handler<Context, E>> {
    open spec fn effect(
        &self,
        arguments: Map<Seq<char>, Seq<char>>,
        before: Context,
        after: Context,
        answer: Result<Option<String>, E>,
    ) -> bool {
        (**self).effect(arguments, before, after, answer)
    }

    fn call(&self, arguments: Arguments, context: &mut Context) -> (answer: Result<
        Option<String>,
        E,
    >) {
        (**self).call(arguments, context)
    }
}

/// A command: its name, its parameters in order, its handler and an optional
/// one-line description.
#[verifier::reject_recursive_types(Context)]
#[verifier::reject_recursive_types(E)]
pub struct Command<Context, E, H = Box<dyn Handler<Context, E>>> {
    name: String,
    parameters: Vec<Parameter>,
    callback: H,
    help_summary: Option<String>,
    marker: PhantomData<(Context, E)>,
}

/// The mathematical content of a [`Command`], handler aside.
pub struct CommandView {
    pub name: Seq<char>,
    pub parameters: Seq<ParameterView>,
    pub help_summary: Option<Seq<char>>,
}

impl CommandView {
    /// A command as it is first created: no parameters, no description.
    pub open spec fn fresh(name: Seq<char>) -> CommandView {
        CommandView { name, parameters: Seq::empty(), help_summary: None }
    }

    /// Some parameter of the command is optional.
    pub open spec fn has_optional(self) -> bool {
        exists|i: int| 0 <= i < self.parameters.len() && !(#[trigger] self.parameters[i]).required
    }

    /// Required parameters come first: none follows an optional one.
    pub open spec fn ordered(self) -> bool {
        required_first(self.parameters)
    }

    /// What appending a parameter yields.
    pub open spec fn with_parameter(self, parameter: ParameterView) -> Result<
        CommandView,
        ErrorView,
    > {
        if parameter.required && self.has_optional() {
            Err(ErrorView::IllegalRequiredError(parameter.name))
        } else {
            Ok(CommandView { parameters: self.parameters.push(parameter), ..self })
        }
    }

    /// The command with a description.
    pub open spec fn with_help(self, help: Seq<char>) -> CommandView {
        CommandView { help_summary: Some(help), ..self }
    }
}

impl<Context, E, H> View for Command<Context, E, H> {
    type V = CommandView;

    closed spec fn view(&self) -> CommandView {
        CommandView {
            name: self.name@,
            parameters: parameter_views(self.parameters@),
            help_summary: optional_text(self.help_summary),
        }
    }
}

impl<Context, E, H> Command<Context, E, H> {
    /// The handler of the command.
    pub closed spec fn handler(&self) -> H {
        self.callback
    }

    /// Creates a command without parameters or description.
    pub fn new(name: &str, callback: H) -> (command: Self)
        ensures
            command@ == CommandView::fresh(name@),
            command.handler() == callback,
    {
        let command = Command {
            name: name.to_owned(),
            parameters: Vec::new(),
            callback,
            help_summary: None,
            marker: PhantomData,
        };
        assert(command@.parameters =~= Seq::empty());
        command
    }

    /// Appends a parameter. A required parameter cannot follow an optional one.
    pub fn with_parameter(self, parameter: Parameter) -> (result: Result<Self, Error>)
        ensures
            outcome(result) == self@.with_parameter(parameter@),
            result matches Ok(command) ==> command.handler() == self.handler(),
    {
        if parameter.is_required() {
            let mut i: usize = 0;
            while i < self.parameters.len()
                invariant
                    i <= self.parameters.len(),
                    parameter@.required,
                    forall|k: int| 0 <= k < i ==> (#[trigger] self@.parameters[k]).required,
                decreases self.parameters.len() - i,
            {
                if !self.parameters[i].is_required() {
                    assert(!self@.parameters[i as int].required);
                    return Err(Error::IllegalRequiredError(parameter.name().to_owned()));
                }
                i = i + 1;
            }
        }
        let mut command = self;
        command.parameters.push(parameter);
        assert(command@.parameters =~= self@.parameters.push(parameter@));
        Ok(command)
    }

    /// Gives the command a one-line description.
    pub fn with_help(self, help: &str) -> (command: Self)
        ensures
            command@ == self@.with_help(help@),
            command.handler() == self.handler(),
    {
        let mut command = self;
        command.help_summary = Some(help.to_owned());
        command
    }

    /// The command's name.
    pub fn name(&self) -> (name: &str)
        ensures
            name@ == self@.name,
    {
        self.name.as_str()
    }

    /// The command's parameters, in the order they were appended.
    pub fn parameters(&self) -> (parameters: &Vec<Parameter>)
        ensures
            parameter_views(parameters@) == self@.parameters,
    {
        &self.parameters
    }

    /// The command's description, if it has one.
    pub fn help_summary(&self) -> (help: &Option<String>)
        ensures
            optional_text(*help) == self@.help_summary,
    {
        &self.help_summary
    }
}

impl<Context, E, H: Handler<Context, E>> Command<Context, E, H> {
    /// What a call of the command's handler may do (see [`Handler::effect`]).
    pub open spec fn responds(
        &self,
        arguments: Map<Seq<char>, Seq<char>>,
        before: Context,
        after: Context,
        answer: Result<Option<String>, E>,
    ) -> bool {
        self.handler().effect(arguments, before, after, answer)
    }

    /// Calls the command's handler.
    pub fn invoke(&self, arguments: Arguments, context: &mut Context) -> (answer: Result<
        Option<String>,
        E,
    >)
        ensures
            self.responds(texts(arguments@), *old(context), *final(context), answer),
    {
        self.callback.call(arguments, context)
    }
}

/// A command is ordered when it is created.
pub proof fn lemma_fresh_command_is_ordered(name: Seq<char>)
    ensures
        CommandView::fresh(name).ordered(),
        !CommandView::fresh(name).has_optional(),
{
}

/// Appending keeps a command ordered, and keeps the optional parameters
/// that it holds.
pub proof fn lemma_with_parameter_keeps_order(command: CommandView, parameter: ParameterView)
    ensures
        command.ordered() ==> (command.with_parameter(parameter) matches Ok(next)
            ==> next.ordered()),
        command.has_optional() ==> (command.with_parameter(parameter) matches Ok(next)
            ==> next.has_optional()),
{
    if let Ok(next) = command.with_parameter(parameter) {
        if command.ordered() {
            assert forall|i: int, j: int|
                0 <= i < j < next.parameters.len() && (#[trigger] next.parameters[j]).required implies (
            #[trigger] next.parameters[i]).required by {
                if j == command.parameters.len() {
                    if !command.parameters[i].required {
                        assert(command.has_optional());
                    }
                } else {
                    assert(command.parameters[j].required);
                    assert(command.parameters[i].required);
                }
            }
        }
        if command.has_optional() {
            let i = choose|i: int|
                0 <= i < command.parameters.len() && !(#[trigger] command.parameters[i]).required;
            assert(!next.parameters[i].required);
        }
    }
}

/// Appending a required parameter after an optional one fails with
/// `IllegalRequiredError` naming the required parameter: at once, and for
/// as long as the command holds the optional parameter.
pub proof fn lemma_required_after_optional_fails(
    command: CommandView,
    optional: ParameterView,
    required: ParameterView,
)
    requires
        !optional.required,
        required.required,
    ensures
        command.with_parameter(optional) matches Ok(next) && next.with_parameter(required) == Err::<
            CommandView,
            ErrorView,
        >(ErrorView::IllegalRequiredError(required.name)),
        command.has_optional() ==> command.with_parameter(required) == Err::<
            CommandView,
            ErrorView,
        >(ErrorView::IllegalRequiredError(required.name)),
{
    let next = command.with_parameter(optional)->Ok_0;
    assert(!next.parameters[command.parameters.len() as int].required);
}

} // verus!
