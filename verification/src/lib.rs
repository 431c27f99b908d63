//! A command-registration, argument-validation and dispatch engine for
//! interactive shells.
//!
//! A host program declares named commands, each with an ordered list of
//! positional parameters, and feeds the engine one line of text at a time.
//! The engine splits the line into tokens, looks the command up, binds the
//! arguments to the parameters and invokes the command's handler.

pub mod command;
pub mod conversion;
pub mod error;
pub mod help;
pub mod parameter;
pub mod registry;
pub mod repl;
pub mod reply;
pub mod session;
pub mod text;
pub mod tokenizer;
pub mod validation;
pub mod value;

pub use command::{Command, CommandView, Handler};
pub use error::{Error, ErrorView};
pub use help::{
    HelpContext, HelpContextView, HelpEntry, HelpEntryView, HelpViewer, NoHelpViewer,
};
pub use parameter::{Parameter, ParameterView};
pub use registry::Registry;
pub use repl::{ErrorHandler, NoErrorHandler, Repl};
pub use reply::{Input, Reply, State, Step};
pub use session::{Session, SessionView};
pub use value::{Arguments, Convert, Value};
