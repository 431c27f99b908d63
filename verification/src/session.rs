//! What a shell holds: its settings, its commands, its context and its help
//! snapshot.

use crate::command::{Command, Handler};
use crate::help::{lists, HelpContext, HelpContextView};
use crate::registry::Registry;
use crate::text::optional_text;
use std::path::PathBuf;
use vstd::prelude::*;

verus! {

/// `std::path::PathBuf`, of which the engine knows nothing: it keeps the
/// path of the history file and hands it back as it was given.
#[verifier::external_type_specification]
#[verifier::external_body]
pub struct ExPathBuf(std::path::PathBuf);

/// What a shell holds besides its hooks: what it calls itself, its commands,
/// the context that the handlers work on, and the help snapshot once it has
/// been made. Error hooks read it.
#[verifier::reject_recursive_types(Context)]
#[verifier::reject_recursive_types(E)]
pub struct Session<Context, E, H = Box<dyn Handler<Context, E>>> {
    pub(crate) name: String,
    pub(crate) banner: Option<String>,
    pub(crate) version: String,
    pub(crate) description: String,
    pub(crate) prompt: String,
    pub(crate) custom_prompt: bool,
    pub(crate) registry: Registry<Context, E, H>,
    pub(crate) history: Option<PathBuf>,
    pub(crate) context: Context,
    pub(crate) help_context: Option<HelpContext>,
}

/// The mathematical content of a [`Session`].
#[verifier::reject_recursive_types(Context)]
#[verifier::reject_recursive_types(E)]
pub struct SessionView<Context, E, H> {
    pub name: Seq<char>,
    pub banner: Option<Seq<char>>,
    pub version: Seq<char>,
    pub description: Seq<char>,
    pub prompt: Seq<char>,
    pub custom_prompt: bool,
    pub commands: Map<Seq<char>, Command<Context, E, H>>,
    pub history: Option<PathBuf>,
    pub context: Context,
    pub help_context: Option<HelpContextView>,
}

/// The prompt of a shell that was given none: its name, `>` and a space.
pub open spec fn default_prompt(name: Seq<char>) -> Seq<char> {
    name + seq!['>', ' ']
}

impl<Context, E, H> SessionView<Context, E, H> {
    /// A shell as it is first created.
    pub open spec fn fresh(context: Context) -> Self {
        SessionView {
            name: Seq::empty(),
            banner: None,
            version: Seq::empty(),
            description: Seq::empty(),
            prompt: default_prompt(Seq::empty()),
            custom_prompt: false,
            commands: Map::empty(),
            history: None,
            context,
            help_context: None,
        }
    }

    /// `help` is the snapshot of this shell.
    pub open spec fn summarised_by(self, help: HelpContextView) -> bool {
        &&& help.app_name == self.name
        &&& help.app_version == self.version
        &&& help.app_purpose == self.description
        &&& lists(help.help_entries, self.commands)
    }

    /// `after` is this shell with its help snapshot: the one it had, or else
    /// the one made of it now.
    pub open spec fn with_snapshot(self, after: Self) -> bool {
        &&& after == (SessionView { help_context: after.help_context, ..self })
        &&& after.help_context is Some
        &&& self.help_context is Some ==> after.help_context == self.help_context
        &&& self.help_context is None ==> self.summarised_by(after.help_context->0)
    }

    /// The help snapshot, where one has been made, is that of the shell as
    /// it is now.
    pub open spec fn snapshot_is_current(self) -> bool {
        self.help_context matches Some(help) ==> self.summarised_by(help)
    }
}

impl<Context, E, H> View for Session<Context, E, H> {
    type V = SessionView<Context, E, H>;

    open(crate) spec fn view(&self) -> SessionView<Context, E, H> {
        SessionView {
            name: self.name@,
            banner: optional_text(self.banner),
            version: self.version@,
            description: self.description@,
            prompt: self.prompt@,
            custom_prompt: self.custom_prompt,
            commands: self.registry@,
            history: self.history,
            context: self.context,
            help_context: match self.help_context {
                Some(help) => Some(help@),
                None => None,
            },
        }
    }
}

impl<Context, E, H> Session<Context, E, H> {
    /// The name of the shell.
    pub fn name(&self) -> (name: &str)
        ensures
            name@ == self@.name,
    {
        self.name.as_str()
    }

    /// The version of the shell.
    pub fn version(&self) -> (version: &str)
        ensures
            version@ == self@.version,
    {
        self.version.as_str()
    }

    /// What the shell is for.
    pub fn description(&self) -> (description: &str)
        ensures
            description@ == self@.description,
    {
        self.description.as_str()
    }

    /// The text shown when the shell starts, if it has one.
    pub fn banner(&self) -> (banner: &Option<String>)
        ensures
            optional_text(*banner) == self@.banner,
    {
        &self.banner
    }

    /// The text that asks for the next line.
    pub fn prompt(&self) -> (prompt: &str)
        ensures
            prompt@ == self@.prompt,
    {
        self.prompt.as_str()
    }

    /// Where accepted lines are kept for recall, if anywhere.
    pub fn history(&self) -> (history: &Option<PathBuf>)
        ensures
            *history == self@.history,
    {
        &self.history
    }

    /// The context that the handlers work on.
    pub fn context(&self) -> (context: &Context)
        ensures
            *context == self@.context,
    {
        &self.context
    }

    /// The registered commands.
    pub fn registry(&self) -> (registry: &Registry<Context, E, H>)
        ensures
            registry@ == self@.commands,
    {
        &self.registry
    }

    /// The help snapshot, once it has been made.
    pub fn help_context(&self) -> (help: &Option<HelpContext>)
        ensures
            help is Some == self@.help_context is Some,
            help matches Some(snapshot) ==> self@.help_context == Some(snapshot@),
    {
        &self.help_context
    }
}

} // verus!
