//! The shell: its registry, its settings, and the dispatch of one line.

use crate::command::{Command, Handler};
use crate::error::{failure_of, Error, ErrorView};
use crate::help::{
    entry_index, listing, HelpContext, HelpContextView, HelpEntryView, HelpViewer, NoHelpViewer,
};
use crate::parameter::Parameter;
use crate::registry::Registry;
use crate::reply::{answer_of, converted, raised, Input, Reply, Step, HELP};
use crate::session::{default_prompt, Session, SessionView};
use crate::text::texts_of;
use crate::tokenizer::{tokenize, tokens_of};
use crate::validation::{bound, first_missing, has_missing, parameter_views, validated};
use crate::value::{texts, Arguments, Value};
use std::path::PathBuf;
use vstd::prelude::*;
use vstd::string::*;

verus! {

/// What is told of the failures of a running shell. It receives the failure
/// and may read the session; `Ok` lets the shell go on, an error ends it.
/// A shell without a hook of its own hands each failure to the program
/// around it and goes on.
pub trait ErrorHandler<Context, E, H = Box<dyn Handler<Context, E>>> {
    /// What a call may end in: no failure, or which. A hook that says
    /// nothing of itself may end in anything.
    open spec fn handles(
        &self,
        error: E,
        session: SessionView<Context, E, H>,
        failure: Option<Error>,
    ) -> bool {
        true
    }

    fn handle(&self, error: E, session: &Session<Context, E, H>) -> (answer: Result<(), Error>)
        ensures
            self.handles(error, session@, failure_of(answer)),
    ;
}

/// The error hook of a shell that was given none. As a hook it lets every
/// failure pass.
#[derive(Debug, Clone, Copy, PartialEq, Eq)]
pub struct NoErrorHandler;

impl<Context, E, H> ErrorHandler<Context, E, H> for NoErrorHandler {
    open spec fn handles(
        &self,
        error: E,
        session: SessionView<Context, E, H>,
        failure: Option<Error>,
    ) -> bool {
        failure is None
    }

    fn handle(&self, error: E, session: &Session<Context, E, H>) -> (answer: Result<(), Error>) {
        Ok(())
    }
}

/// An interactive shell: a session with its two hooks, each of which it
/// may have or not.
#[verifier::reject_recursive_types(Context)]
#[verifier::reject_recursive_types(E)]
pub struct Repl<
    Context,
    E,
    H = Box<dyn Handler<Context, E>>,
    V = NoHelpViewer,
    X = NoErrorHandler,
> {
    session: Session<Context, E, H>,
    help_viewer: Option<V>,
    error_handler: Option<X>,
}

impl<Context, E, H, V, X> View for Repl<Context, E, H, V, X> {
    type V = SessionView<Context, E, H>;

    closed spec fn view(&self) -> SessionView<Context, E, H> {
        self.session@
    }
}

impl<Context, E, H> Repl<Context, E, H, NoHelpViewer, NoErrorHandler> {
    /// Creates a shell around a context: without a name, commands or hooks.
    pub fn new(context: Context) -> (repl: Self)
        ensures
            repl@ == SessionView::<Context, E, H>::fresh(context),
            repl.help_viewer() is None,
            repl.error_handler() is None,
    {
        let name = String::new();
        let mut prompt = name.clone();
        prompt.append("> ");
        proof {
            reveal_strlit("> ");
            assert(prompt@ =~= default_prompt(Seq::empty()));
        }
        Repl {
            session: Session {
                name,
                banner: None,
                version: String::new(),
                description: String::new(),
                prompt,
                custom_prompt: false,
                registry: Registry::new(),
                history: None,
                context,
                help_context: None,
            },
            help_viewer: None,
            error_handler: None,
        }
    }

}

impl<Context, E, H, V, X> Repl<Context, E, H, V, X> {
    /// The help viewer of the shell, if it has one of its own.
    pub closed spec fn help_viewer(&self) -> Option<V> {
        self.help_viewer
    }

    /// The error hook of the shell, if it has one of its own.
    pub closed spec fn error_handler(&self) -> Option<X> {
        self.error_handler
    }

    /// Both shells have the same hooks.
    pub open spec fn same_hooks(&self, other: &Self) -> bool {
        self.help_viewer() == other.help_viewer() && self.error_handler() == other.error_handler()
    }

    /// Names the shell. Unless a prompt was given, the prompt follows the name.
    pub fn with_name(self, name: &str) -> (repl: Self)
        ensures
            repl@ == (SessionView {
                name: name@,
                prompt: if self@.custom_prompt {
                    self@.prompt
                } else {
                    default_prompt(name@)
                },
                help_context: None,
                ..self@
            }),
            repl.same_hooks(&self),
    {
        let mut repl = self;
        repl.session.name = name.to_owned();
        if !repl.session.custom_prompt {
            let mut prompt = name.to_owned();
            prompt.append("> ");
            proof {
                reveal_strlit("> ");
                assert(prompt@ =~= default_prompt(name@));
            }
            repl.session.prompt = prompt;
        }
        repl.session.help_context = None;
        repl
    }

    /// Gives the shell a banner, shown when it starts.
    pub fn with_banner(self, banner: &str) -> (repl: Self)
        ensures
            repl@ == (SessionView { banner: Some(banner@), ..self@ }),
            repl.same_hooks(&self),
    {
        let mut repl = self;
        repl.session.banner = Some(banner.to_owned());
        repl
    }

    /// Gives the shell a version, shown in its help.
    pub fn with_version(self, version: &str) -> (repl: Self)
        ensures
            repl@ == (SessionView { version: version@, help_context: None, ..self@ }),
            repl.same_hooks(&self),
    {
        let mut repl = self;
        repl.session.version = version.to_owned();
        repl.session.help_context = None;
        repl
    }

    /// Says what the shell is for, shown in its help.
    pub fn with_description(self, description: &str) -> (repl: Self)
        ensures
            repl@ == (SessionView { description: description@, help_context: None, ..self@ }),
            repl.same_hooks(&self),
    {
        let mut repl = self;
        repl.session.description = description.to_owned();
        repl.session.help_context = None;
        repl
    }

    /// Keeps the accepted lines in a file for recall.
    pub fn with_history(self, history_path: PathBuf) -> (repl: Self)
        ensures
            repl@ == (SessionView { history: Some(history_path), ..self@ }),
            repl.same_hooks(&self),
    {
        let mut repl = self;
        repl.session.history = Some(history_path);
        repl
    }

    /// Gives the shell a prompt of its own, which no later name changes.
    pub fn with_prompt(self, prompt: &str) -> (repl: Self)
        ensures
            repl@ == (SessionView { prompt: prompt@, custom_prompt: true, ..self@ }),
            repl.same_hooks(&self),
    {
        let mut repl = self;
        repl.session.prompt = prompt.to_owned();
        repl.session.custom_prompt = true;
        repl
    }

    /// Has help presented by `help_viewer`, in place of the viewer that the
    /// shell had, if it had one.
    pub fn with_help_viewer<V2: HelpViewer>(self, help_viewer: V2) -> (repl: Repl<
        Context,
        E,
        H,
        V2,
        X,
    >)
        ensures
            repl@ == self@,
            repl.help_viewer() == Some(help_viewer),
            repl.error_handler() == self.error_handler(),
    {
        Repl {
            session: self.session,
            help_viewer: Some(help_viewer),
            error_handler: self.error_handler,
        }
    }

    /// Has failures told to `handler`, in place of the hook that the shell
    /// had, if it had one.
    pub fn with_error_handler<X2: ErrorHandler<Context, E, H>>(self, handler: X2) -> (repl: Repl<
        Context,
        E,
        H,
        V,
        X2,
    >)
        ensures
            repl@ == self@,
            repl.help_viewer() == self.help_viewer(),
            repl.error_handler() == Some(handler),
    {
        Repl { session: self.session, help_viewer: self.help_viewer, error_handler: Some(handler) }
    }

    /// Registers a command under its name, in place of the command that had
    /// the name before, if there was one.
    pub fn add_command(self, command: Command<Context, E, H>) -> (repl: Self)
        ensures
            repl@ == (SessionView {
                commands: self@.commands.insert(command@.name, command),
                help_context: None,
                ..self@
            }),
            repl.same_hooks(&self),
    {
        let Repl { session, help_viewer, error_handler } = self;
        let Session {
            name,
            banner,
            version,
            description,
            prompt,
            custom_prompt,
            registry,
            history,
            context,
            help_context,
        } = session;
        Repl {
            session: Session {
                name,
                banner,
                version,
                description,
                prompt,
                custom_prompt,
                registry: registry.insert(command),
                history,
                context,
                help_context: None,
            },
            help_viewer,
            error_handler,
        }
    }

    /// The session of the shell.
    pub fn session(&self) -> (session: &Session<Context, E, H>)
        ensures
            session@ == self@,
    {
        &self.session
    }
}

impl<
    Context,
    E: From<Error>,
    H: Handler<Context, E>,
    V: HelpViewer,
    X: ErrorHandler<Context, E, H>,
> Repl<Context, E, H, V, X> {
    /// The shell has a help viewer of its own.
    pub open spec fn has_help_viewer(&self) -> bool {
        self.help_viewer() is Some
    }

    /// What the shell's help viewer may end in when shown the whole snapshot.
    pub open spec fn viewer_shows_general(
        &self,
        help: HelpContextView,
        failure: Option<Error>,
    ) -> bool {
        self.help_viewer() matches Some(viewer) && viewer.shows_general(help, failure)
    }

    /// What the shell's help viewer may end in when shown one entry.
    pub open spec fn viewer_shows_command(
        &self,
        entry: HelpEntryView,
        failure: Option<Error>,
    ) -> bool {
        self.help_viewer() matches Some(viewer) && viewer.shows_command(entry, failure)
    }

    /// The shell has an error hook of its own.
    pub open spec fn has_error_handler(&self) -> bool {
        self.error_handler() is Some
    }

    /// What the shell's error hook may end in when told of a failure.
    pub open spec fn hook_handles(
        &self,
        error: E,
        session: SessionView<Context, E, H>,
        failure: Option<Error>,
    ) -> bool {
        self.error_handler() matches Some(hook) && hook.handles(error, session, failure)
    }


    /// What a request for help yields, of a shell that has its help
    /// snapshot. Without arguments the whole snapshot is presented, else the
    /// first entry for the first argument, if there is one. A shell with a
    /// viewer of its own has the viewer present it and passes on the
    /// viewer's failure; another says in its reply what is to be presented.
    pub open spec fn helped(&self, args: Seq<Seq<char>>, result: Result<Reply, Error>) -> bool {
        &&& self@.help_context is Some
        &&& if args.len() == 0 {
            if self.has_help_viewer() {
                &&& result matches Ok(reply) ==> reply is Nothing
                &&& self.viewer_shows_general(self@.help_context->0, failure_of(result))
            } else {
                result == Ok::<Reply, Error>(Reply::GeneralHelp)
            }
        } else {
            match entry_index(self@.help_context->0.help_entries, args[0]) {
                Some(i) => if self.has_help_viewer() {
                    &&& result matches Ok(reply) ==> reply is Nothing
                    &&& self.viewer_shows_command(
                        self@.help_context->0.help_entries[i],
                        failure_of(result),
                    )
                } else {
                    result == Ok::<Reply, Error>(Reply::CommandHelp(i as usize))
                },
                None => result matches Ok(Reply::HelpNotFound(name)) && name@ == args[0],
            }
        }
    }

    /// What dispatching a command with its arguments yields. A registered
    /// command has its arguments validated; if they are in order its handler
    /// is called with the arguments bound and the context, and the handler's
    /// answer is the result; if not, the failure of validation is, and the
    /// context is left alone. A name that is not registered asks for help if
    /// it is `help`, and is an unknown command otherwise.
    pub open spec fn handled(
        before: &Self,
        after: &Self,
        command: Seq<char>,
        args: Seq<Seq<char>>,
        result: Result<Reply, E>,
    ) -> bool {
        &&& after.same_hooks(before)
        &&& if before@.commands.contains_key(command) {
            let definition = before@.commands[command];
            match validated(command, definition@.parameters, args) {
                Ok(arguments) => {
                    &&& after@ == (SessionView { context: after@.context, ..before@ })
                    &&& result matches Ok(reply) ==> reply is Output || reply is Nothing
                    &&& definition.responds(
                        arguments,
                        before@.context,
                        after@.context,
                        answer_of(result),
                    )
                },
                Err(error) => after@ == before@ && raised(result, error),
            }
        } else if command == HELP@ {
            &&& before@.with_snapshot(after@)
            &&& match result {
                Ok(reply) => after.helped(args, Ok(reply)),
                Err(failure) => exists|cause: Error| #[trigger]
                    after.helped(args, Err(cause)) && converted(cause, failure),
            }
        } else {
            after@ == before@ && raised(result, ErrorView::UnknownCommand(command))
        }
    }

    /// What dispatching a line yields: nothing for a line without tokens,
    /// else what dispatching its first token as the command with the others
    /// as arguments does.
    pub open spec fn processed(
        before: &Self,
        after: &Self,
        line: Seq<char>,
        result: Result<Reply, E>,
    ) -> bool {
        match tokens_of(line) {
            Some(tokens) => if tokens.len() == 0 {
                &&& after@ == before@
                &&& after.same_hooks(before)
                &&& result == Ok::<Reply, E>(Reply::Nothing)
            } else {
                Self::handled(before, after, tokens[0], tokens.skip(1), result)
            },
            None => {
                &&& after@ == before@
                &&& after.same_hooks(before)
                &&& raised(result, ErrorView::TokenPatternRejected)
            },
        }
    }

    /// What one turn of the loop does. A line is dispatched; its reply is
    /// passed on; a failure goes to the error hook, which lets the loop go
    /// on or ends it with a failure of its own, and without a hook is passed
    /// on to be reported. The end of the input and an interrupt end the loop
    /// in good order, a failure of the source of lines ends it on a failure.
    pub open spec fn stepped(before: &Self, after: &Self, input: Input, step: Step<E>) -> bool {
        match input {
            Input::Line(line) => match step {
                Step::Continue(reply) => {
                    ||| Self::processed(before, after, line@, Ok(reply))
                    ||| {
                        &&& before.has_error_handler()
                        &&& reply is Nothing
                        &&& exists|failure: E| #[trigger]
                            Self::processed(before, after, line@, Err(failure))
                                && after.hook_handles(failure, after@, None)
                    }
                },
                Step::Report(failure) => {
                    &&& !before.has_error_handler()
                    &&& Self::processed(before, after, line@, Err(failure))
                },
                Step::Fatal(Some(error)) => {
                    &&& before.has_error_handler()
                    &&& exists|failure: E| #[trigger]
                        Self::processed(before, after, line@, Err(failure)) && after.hook_handles(
                            failure,
                            after@,
                            Some(error),
                        )
                },
                _ => false,
            },
            Input::EndOfInput | Input::Interrupt => step is Quit && *after == *before,
            Input::Failure => step matches Step::Fatal(None) && *after == *before,
        }
    }

    /// Binds the arguments given to a command to its parameters, in order.
    pub fn validate_arguments(&self, command: &str, parameters: &[Parameter], args: &[&str]) -> (result:
        Result<Arguments, Error>)
        ensures
            match validated(command@, parameter_views(parameters@), texts_of(args@)) {
                Ok(arguments) => result matches Ok(validated) && texts(validated@) == arguments,
                Err(error) => result matches Err(failure) && failure@ == error,
            },
    {
        let ghost views = parameter_views(parameters@);
        let ghost given = texts_of(args@);
        if args.len() > parameters.len() {
            return Err(Error::TooManyArguments(command.to_owned(), parameters.len()));
        }
        let mut validated: Arguments = Arguments::new();
        assert(texts(validated@) =~= bound(views, given, 0));
        let mut index: usize = 0;
        while index < parameters.len()
            invariant
                index <= parameters.len(),
                args.len() <= parameters.len(),
                views == parameter_views(parameters@),
                given == texts_of(args@),
                texts(validated@) == bound(views, given, index as int),
                forall|k: int| args.len() <= k < index ==> !(#[trigger] views[k]).required,
            decreases parameters.len() - index,
        {
            let parameter = &parameters[index];
            let ghost earlier = validated@;
            assert(views[index as int] == parameter@);
            if index < args.len() {
                validated.insert(parameter.name().to_owned(), Value::new(args[index]));
                assert(texts(validated@) =~= texts(earlier).insert(
                    parameter@.name,
                    given[index as int],
                ));
            } else if parameter.is_required() {
                proof {
                    assert(first_missing(views, args.len() as int, index as int));
                    let first = choose|i: int| first_missing(views, args.len() as int, i);
                    crate::validation::lemma_first_missing_is_unique(
                        views,
                        args.len() as int,
                        first,
                        index as int,
                    );
                }
                return Err(
                    Error::MissingRequiredArgument(command.to_owned(), parameter.name().to_owned()),
                );
            } else {
                match parameter.default_value() {
                    Some(default) => {
                        validated.insert(parameter.name().to_owned(), Value::new(default));
                        assert(texts(validated@) =~= texts(earlier).insert(
                            parameter@.name,
                            default@,
                        ));
                    },
                    None => {},
                }
            }
            index = index + 1;
        }
        proof {
            if has_missing(views, args.len() as int) {
                let first = choose|i: int| first_missing(views, args.len() as int, i);
                assert(!views[first].required);
            }
        }
        Ok(validated)
    }

    /// Makes the help snapshot of the shell as it is now.
    pub fn construct_help_context(&mut self)
        ensures
            final(self)@ == (SessionView { help_context: final(self)@.help_context, ..old(self)@ }),
            final(self)@.help_context matches Some(help) && old(self)@.summarised_by(help),
            final(self).same_hooks(old(self)),
    {
        let help = HelpContext::new(
            self.session.name.as_str(),
            self.session.version.as_str(),
            self.session.description.as_str(),
            listing(&self.session.registry),
        );
        self.session.help_context = Some(help);
    }

    /// Has the whole snapshot presented: by the shell's viewer, or else by
    /// whoever reads the reply.
    fn present_general(&self, help: &HelpContext) -> (result: Result<Reply, Error>)
        ensures
            if self.has_help_viewer() {
                &&& result matches Ok(reply) ==> reply is Nothing
                &&& self.viewer_shows_general(help@, failure_of(result))
            } else {
                result == Ok::<Reply, Error>(Reply::GeneralHelp)
            },
    {
        match &self.help_viewer {
            Some(viewer) => match viewer.help_general(help) {
                Ok(()) => Ok(Reply::Nothing),
                Err(failure) => Err(failure),
            },
            None => Ok(Reply::GeneralHelp),
        }
    }

    /// Has one entry of the snapshot presented: by the shell's viewer, or
    /// else by whoever reads the reply.
    fn present_command(&self, help: &HelpContext, at: usize) -> (result: Result<Reply, Error>)
        requires
            at < help@.help_entries.len(),
        ensures
            if self.has_help_viewer() {
                &&& result matches Ok(reply) ==> reply is Nothing
                &&& self.viewer_shows_command(help@.help_entries[at as int], failure_of(result))
            } else {
                result == Ok::<Reply, Error>(Reply::CommandHelp(at))
            },
    {
        match &self.help_viewer {
            Some(viewer) => match viewer.help_command(&help.help_entries[at]) {
                Ok(()) => Ok(Reply::Nothing),
                Err(failure) => Err(failure),
            },
            None => Ok(Reply::CommandHelp(at)),
        }
    }

    /// Answers a request for help, making the help snapshot first if the
    /// shell has none.
    pub fn show_help(&mut self, args: &[&str]) -> (result: Result<Reply, Error>)
        ensures
            old(self)@.with_snapshot(final(self)@),
            final(self).same_hooks(old(self)),
            final(self).helped(texts_of(args@), result),
    {
        if self.session.help_context.is_none() {
            self.construct_help_context();
        }
        let help = self.session.help_context.as_ref().unwrap();
        if args.len() == 0 {
            self.present_general(help)
        } else {
            assert(texts_of(args@)[0] == args@[0]@);
            match help.find(args[0]) {
                Some(at) => self.present_command(help, at),
                None => Ok(Reply::HelpNotFound(args[0].to_owned())),
            }
        }
    }

    /// Dispatches a command with its arguments.
    pub fn handle_command(&mut self, command: &str, args: &[&str]) -> (result: Result<Reply, E>)
        ensures
            Self::handled(old(self), final(self), command@, texts_of(args@), result),
    {
        match self.session.registry.find(command) {
            Some(definition) => {
                match self.validate_arguments(command, definition.parameters().as_slice(), args) {
                    Ok(validated) => {
                        match definition.invoke(validated, &mut self.session.context) {
                            Ok(Some(value)) => Ok(Reply::Output(value)),
                            Ok(None) => Ok(Reply::Nothing),
                            Err(error) => Err(error),
                        }
                    },
                    Err(error) => {
                        assert(error@ == error@);
                        Err(E::from(error))
                    },
                }
            },
            None => {
                if command.eq(HELP) {
                    match self.show_help(args) {
                        Ok(reply) => Ok(reply),
                        Err(error) => {
                            assert(final(self).helped(texts_of(args@), Err(error)));
                            Err(E::from(error))
                        },
                    }
                } else {
                    let error = Error::UnknownCommand(command.to_owned());
                    assert(error@ == ErrorView::UnknownCommand(command@));
                    Err(E::from(error))
                }
            },
        }
    }

    /// Dispatches one line: splits it into tokens and, unless it has none,
    /// dispatches the first as the command with the others as arguments.
    pub fn process_line(&mut self, line: String) -> (result: Result<Reply, E>)
        ensures
            Self::processed(old(self), final(self), line@, result),
            crate::tokenizer::blank(line@) ==> result == Ok::<Reply, E>(Reply::Nothing)
                && final(self)@ == old(self)@,
    {
        match tokenize(line.as_str()) {
            Ok(tokens) => {
                if tokens.len() == 0 {
                    assert(tokens.deep_view().len() == 0);
                    return Ok(Reply::Nothing);
                }
                let mut args: Vec<&str> = Vec::new();
                let mut i: usize = 1;
                while i < tokens.len()
                    invariant
                        1 <= i <= tokens.len(),
                        args@.len() == i - 1,
                        forall|k: int| 0 <= k < args@.len() ==> (#[trigger] args@[k])@ == tokens@[k + 1]@,
                    decreases tokens.len() - i,
                {
                    args.push(tokens[i].as_str());
                    i = i + 1;
                }
                proof {
                    assert(tokens.deep_view()[0] == tokens@[0]@);
                    assert(texts_of(args@) =~= tokens.deep_view().skip(1));
                }
                self.handle_command(tokens[0].as_str(), args.as_slice())
            },
            Err(error) => Err(E::from(error)),
        }
    }

    /// Takes one turn of the loop: answers what the source of lines yielded.
    pub fn step(&mut self, input: Input) -> (step: Step<E>)
        ensures
            Self::stepped(old(self), final(self), input, step),
    {
        match input {
            Input::Line(line) => match self.process_line(line) {
                Ok(reply) => Step::Continue(reply),
                Err(failure) => match &self.error_handler {
                    Some(hook) => {
                        let answer = hook.handle(failure, &self.session);
                        assert(self.hook_handles(failure, self@, failure_of(answer)));
                        match answer {
                            Ok(()) => Step::Continue(Reply::Nothing),
                            Err(error) => Step::Fatal(Some(error)),
                        }
                    },
                    None => Step::Report(failure),
                },
            },
            Input::EndOfInput => Step::Quit,
            Input::Interrupt => Step::Quit,
            Input::Failure => Step::Fatal(None),
        }
    }
}

/// An empty line and a line of white space do nothing: the reply is empty,
/// no failure is raised, and the shell, its context with it, stays as it was.
pub proof fn lemma_blank_line_does_nothing<
    Context,
    E: From<Error>,
    H: Handler<Context, E>,
    V: HelpViewer,
    X: ErrorHandler<Context, E, H>,
>(
    before: &Repl<Context, E, H, V, X>,
    after: &Repl<Context, E, H, V, X>,
    line: Seq<char>,
    result: Result<Reply, E>,
)
    requires
        crate::tokenizer::blank(line),
        Repl::processed(before, after, line, result),
    ensures
        result == Ok::<Reply, E>(Reply::Nothing),
        after@ == before@,
        after.same_hooks(before),
{
}

/// A line whose first token is not the name of a registered command, and
/// is not `help`, fails as an unknown command of that name, and leaves the
/// shell as it was.
pub proof fn lemma_unknown_command_fails<
    Context,
    E: From<Error>,
    H: Handler<Context, E>,
    V: HelpViewer,
    X: ErrorHandler<Context, E, H>,
>(
    before: &Repl<Context, E, H, V, X>,
    after: &Repl<Context, E, H, V, X>,
    line: Seq<char>,
    tokens: Seq<Seq<char>>,
    result: Result<Reply, E>,
)
    requires
        tokens_of(line) == Some(tokens),
        tokens.len() > 0,
        !before@.commands.contains_key(tokens[0]),
        tokens[0] != HELP@,
        Repl::processed(before, after, line, result),
    ensures
        raised(result, ErrorView::UnknownCommand(tokens[0])),
        after@ == before@,
{
}

/// Once a command was registered again under its name, the name is
/// dispatched to the later registration alone: its parameters decide
/// whether the arguments are in order, and its handler is the one called.
pub proof fn lemma_latest_registration_is_dispatched<
    Context,
    E: From<Error>,
    H: Handler<Context, E>,
    V: HelpViewer,
    X: ErrorHandler<Context, E, H>,
>(
    earlier: SessionView<Context, E, H>,
    first: Command<Context, E, H>,
    second: Command<Context, E, H>,
    before: &Repl<Context, E, H, V, X>,
    after: &Repl<Context, E, H, V, X>,
    args: Seq<Seq<char>>,
    result: Result<Reply, E>,
)
    requires
        first@.name == second@.name,
        before@.commands == earlier.commands.insert(first@.name, first).insert(
            second@.name,
            second,
        ),
        Repl::handled(before, after, second@.name, args, result),
    ensures
        before@.commands == earlier.commands.insert(second@.name, second),
        match validated(second@.name, second@.parameters, args) {
            Ok(arguments) => second.responds(
                arguments,
                before@.context,
                after@.context,
                answer_of(result),
            ),
            Err(error) => raised(result, error) && after@ == before@,
        },
{
    crate::registry::lemma_insert_replaces(earlier.commands, first, second);
}

/// A help snapshot shows the shell as it is: a turn of the loop leaves a
/// snapshot that was current so, and makes no other.
pub proof fn lemma_snapshot_stays_current<
    Context,
    E: From<Error>,
    H: Handler<Context, E>,
    V: HelpViewer,
    X: ErrorHandler<Context, E, H>,
>(
    before: &Repl<Context, E, H, V, X>,
    after: &Repl<Context, E, H, V, X>,
    input: Input,
    step: Step<E>,
)
    requires
        before@.snapshot_is_current(),
        Repl::stepped(before, after, input, step),
    ensures
        after@.snapshot_is_current(),
        after@.commands == before@.commands,
{
}

} // verus!
