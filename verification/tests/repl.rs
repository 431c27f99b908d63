use reedline_repl_rs::{
    Arguments, Command, Error, ErrorHandler, Handler, Input, NoErrorHandler, NoHelpViewer,
    Parameter, Repl, Reply, Session, State, Step,
};

/// Gives every failure back, so that it ends the loop.
struct Strict;

impl<Context, H> ErrorHandler<Context, Error, H> for Strict {
    fn handle(&self, error: Error, _session: &Session<Context, Error, H>) -> Result<(), Error> {
        Err(error)
    }
}

struct Foo;

impl<T> Handler<T, Error> for Foo {
    fn call(&self, args: Arguments, _context: &mut T) -> Result<Option<String>, Error> {
        Ok(Some(format!("foo with {} arguments", args.len())))
    }
}

fn run_repl<Context>(
    mut repl: Repl<Context, Error, Foo, NoHelpViewer, Strict>,
    input: &str,
    expected: Result<(), Error>,
) {
    let result = match repl.step(Input::Line(input.to_string())) {
        Step::Continue(_) => Ok(()),
        Step::Report(error) => panic!("a shell with an error hook reported {:?}", error),
        Step::Quit => panic!("a line ended the loop"),
        Step::Fatal(Some(error)) => Err(error),
        Step::Fatal(None) => panic!("a line was taken for a failure of the source"),
    };
    assert_eq!(expected, result);
}

fn foo_repl() -> Result<Repl<(), Error, Foo, NoHelpViewer, Strict>, Error> {
    Ok(Repl::new(())
        .with_name("test")
        .with_version("v0.1.0")
        .with_description("Testing 1, 2, 3...")
        .with_error_handler(Strict)
        .add_command(
            Command::new("foo", Foo)
                .with_parameter(Parameter::new("bar").set_required(true)?)?
                .with_parameter(Parameter::new("baz").set_required(true)?)?
                .with_help("Do foo when you can"),
        ))
}

#[test]
fn test_empty_line_does_nothing() -> Result<(), Error> {
    let repl = foo_repl()?;
    run_repl(repl, "\n", Ok(()));

    Ok(())
}

#[test]
fn test_missing_required_arg_fails() -> Result<(), Error> {
    let repl = foo_repl()?;
    run_repl(
        repl,
        "foo bar\n",
        Err(Error::MissingRequiredArgument("foo".into(), "baz".into())),
    );

    Ok(())
}

#[test]
fn test_unknown_command_fails() -> Result<(), Error> {
    let repl = foo_repl()?;
    run_repl(repl, "bar baz\n", Err(Error::UnknownCommand("bar".to_string())));

    Ok(())
}

#[test]
fn test_no_required_after_optional() -> Result<(), Error> {
    let result = Command::<(), Error>::new("foo", Box::new(Foo))
        .with_parameter(Parameter::new("baz").set_default("20")?)?
        .with_parameter(Parameter::new("bar").set_required(true)?);
    match result {
        Err(error) => assert_eq!(Error::IllegalRequiredError("bar".into()), error),
        Ok(_) => panic!("a required parameter was accepted after an optional one"),
    }

    Ok(())
}

#[test]
fn test_required_cannot_be_defaulted() -> Result<(), Error> {
    assert_eq!(
        Err(Error::IllegalDefaultError("bar".into())),
        Parameter::new("bar").set_required(true)?.set_default("foo")
    );

    Ok(())
}

#[test]
fn test_string_with_spaces_for_argument() -> Result<(), Error> {
    let repl = foo_repl()?;
    run_repl(repl, "foo \"baz test 123\" foo\n", Ok(()));

    Ok(())
}

#[test]
fn test_string_with_spaces_for_argument_last() -> Result<(), Error> {
    let repl = foo_repl()?;
    run_repl(repl, "foo foo \"baz test 123\"\n", Ok(()));

    Ok(())
}

/// Writes the arguments it was called with into the context, in the order
/// of the names it was made with.
struct Record(Vec<&'static str>);

impl Handler<Vec<String>, Error> for Record {
    fn call(&self, args: Arguments, context: &mut Vec<String>) -> Result<Option<String>, Error> {
        let mut line = String::new();
        for name in &self.0 {
            match args.get(name) {
                Some(value) => line.push_str(&format!("{}={};", name, value.as_str())),
                None => line.push_str(&format!("{} unbound;", name)),
            }
        }
        line.push_str(&format!("{} bound", args.len()));
        context.push(line.clone());
        Ok(Some(line))
    }
}

struct Silent;

impl Handler<Vec<String>, Error> for Silent {
    fn call(&self, _args: Arguments, context: &mut Vec<String>) -> Result<Option<String>, Error> {
        context.push("silent".to_string());
        Ok(None)
    }
}

struct Failing;

impl Handler<Vec<String>, Error> for Failing {
    fn call(&self, _args: Arguments, context: &mut Vec<String>) -> Result<Option<String>, Error> {
        context.push("failing".to_string());
        Err(Error::ValueConversionError("nope".to_string()))
    }
}

fn boxed<H: Handler<Vec<String>, Error> + 'static>(
    handler: H,
) -> Box<dyn Handler<Vec<String>, Error>> {
    Box::new(handler)
}

fn recording_repl() -> Repl<Vec<String>, Error> {
    Repl::new(Vec::new())
        .with_name("rec")
        .add_command(
            Command::new("foo", boxed(Record(vec!["bar", "baz"])))
                .with_parameter(Parameter::new("bar").set_required(true).unwrap())
                .unwrap()
                .with_parameter(Parameter::new("baz").set_required(true).unwrap())
                .unwrap(),
        )
        .add_command(
            Command::new("opt", boxed(Record(vec!["first", "second", "third"])))
                .with_parameter(Parameter::new("first").set_required(true).unwrap())
                .unwrap()
                .with_parameter(Parameter::new("second").set_default("two").unwrap())
                .unwrap()
                .with_parameter(Parameter::new("third"))
                .unwrap(),
        )
        .add_command(Command::new("hush", boxed(Silent)))
        .add_command(Command::new("fail", boxed(Failing)))
}

#[test]
fn dispatch_binds_arguments_in_order() {
    let mut repl = recording_repl();
    let reply = repl.process_line("foo \"baz test 123\" bar".to_string());
    assert_eq!(reply, Ok(Reply::Output("bar=baz test 123;baz=bar;2 bound".to_string())));
    assert_eq!(repl.session().context(), &vec!["bar=baz test 123;baz=bar;2 bound".to_string()]);
}

#[test]
fn dispatch_keeps_a_quote_inside_a_run() {
    let mut repl = recording_repl();
    let reply = repl.process_line("foo a\"b c".to_string());
    assert_eq!(reply, Ok(Reply::Output("bar=a\"b;baz=c;2 bound".to_string())));
}

#[test]
fn dispatch_quoted_argument_last() {
    let mut repl = recording_repl();
    let reply = repl.process_line("foo foo \"baz test 123\"\n".to_string());
    assert_eq!(reply, Ok(Reply::Output("bar=foo;baz=baz test 123;2 bound".to_string())));
}

#[test]
fn dispatch_missing_required_argument() {
    let mut repl = recording_repl();
    let reply = repl.process_line("foo onlyone".to_string());
    assert_eq!(reply, Err(Error::MissingRequiredArgument("foo".into(), "baz".into())));
    assert!(repl.session().context().is_empty());
}

#[test]
fn dispatch_missing_reports_the_first_only() {
    let mut repl = recording_repl();
    let reply = repl.process_line("foo".to_string());
    assert_eq!(reply, Err(Error::MissingRequiredArgument("foo".into(), "bar".into())));
}

#[test]
fn dispatch_too_many_arguments() {
    let mut repl = recording_repl();
    let reply = repl.process_line("foo a b c".to_string());
    assert_eq!(reply, Err(Error::TooManyArguments("foo".into(), 2)));
    assert!(repl.session().context().is_empty());
}

#[test]
fn dispatch_too_many_arguments_for_no_parameters() {
    let mut repl = recording_repl();
    let reply = repl.process_line("hush now".to_string());
    assert_eq!(reply, Err(Error::TooManyArguments("hush".into(), 0)));
}

#[test]
fn dispatch_empty_line_is_no_op() {
    let mut repl = recording_repl();
    assert_eq!(repl.process_line("".to_string()), Ok(Reply::Nothing));
    assert_eq!(repl.process_line("   \t \n".to_string()), Ok(Reply::Nothing));
    assert_eq!(repl.process_line("\u{a0}\u{2003}".to_string()), Ok(Reply::Nothing));
    assert!(repl.session().context().is_empty());
}

#[test]
fn dispatch_unknown_command() {
    let mut repl = recording_repl();
    assert_eq!(
        repl.process_line("bar baz".to_string()),
        Err(Error::UnknownCommand("bar".to_string()))
    );
    assert_eq!(
        repl.process_line("Foo a b".to_string()),
        Err(Error::UnknownCommand("Foo".to_string()))
    );
    assert!(repl.session().context().is_empty());
}

#[test]
fn dispatch_defaults_and_omitted_parameters() {
    let mut repl = recording_repl();
    assert_eq!(
        repl.process_line("opt 1".to_string()),
        Ok(Reply::Output("first=1;second=two;third unbound;2 bound".to_string()))
    );
    assert_eq!(
        repl.process_line("opt 1 2".to_string()),
        Ok(Reply::Output("first=1;second=2;third unbound;2 bound".to_string()))
    );
    assert_eq!(
        repl.process_line("opt 1 2 3".to_string()),
        Ok(Reply::Output("first=1;second=2;third=3;3 bound".to_string()))
    );
    assert_eq!(
        repl.process_line("opt".to_string()),
        Err(Error::MissingRequiredArgument("opt".into(), "first".into()))
    );
    assert_eq!(
        repl.process_line("opt 1 2 3 4".to_string()),
        Err(Error::TooManyArguments("opt".into(), 3))
    );
}

#[test]
fn dispatch_silent_and_failing_handlers() {
    let mut repl = recording_repl();
    assert_eq!(repl.process_line("hush".to_string()), Ok(Reply::Nothing));
    assert_eq!(
        repl.process_line("fail".to_string()),
        Err(Error::ValueConversionError("nope".to_string()))
    );
    assert_eq!(repl.session().context(), &vec!["silent".to_string(), "failing".to_string()]);
}

#[test]
fn handle_command_takes_tokens_as_they_are() {
    let mut repl = recording_repl();
    assert_eq!(
        repl.handle_command("foo", &["a b", ""]),
        Ok(Reply::Output("bar=a b;baz=;2 bound".to_string()))
    );
    assert_eq!(
        repl.handle_command("nothing", &[]),
        Err(Error::UnknownCommand("nothing".to_string()))
    );
}

#[test]
fn registering_a_name_again_replaces_the_command() {
    let mut repl = recording_repl().add_command(
        Command::new("foo", boxed(Record(vec!["only"])))
            .with_parameter(Parameter::new("only").set_default("x").unwrap())
            .unwrap(),
    );
    assert_eq!(repl.session().registry().commands().len(), 4);
    assert_eq!(
        repl.process_line("foo".to_string()),
        Ok(Reply::Output("only=x;1 bound".to_string()))
    );
    assert_eq!(
        repl.process_line("foo a b".to_string()),
        Err(Error::TooManyArguments("foo".into(), 1))
    );
    assert_eq!(
        repl.process_line("opt 9".to_string()),
        Ok(Reply::Output("first=9;second=two;third unbound;2 bound".to_string()))
    );
}

#[test]
fn validate_arguments_binds_by_position() {
    let repl: Repl<(), Error> = Repl::new(());
    let parameters = vec![
        Parameter::new("a").set_required(true).unwrap(),
        Parameter::new("b").set_default("dflt").unwrap(),
        Parameter::new("c"),
    ];
    let bound = repl.validate_arguments("cmd", &parameters, &["1"]).unwrap();
    assert_eq!(bound.len(), 2);
    assert_eq!(bound.get("a").map(|v| v.as_str()), Some("1"));
    assert_eq!(bound.get("b").map(|v| v.as_str()), Some("dflt"));
    assert!(bound.get("c").is_none());

    let bound = repl.validate_arguments("cmd", &parameters, &["1", "2", "3"]).unwrap();
    assert_eq!(bound.len(), 3);
    assert_eq!(bound.get("b").map(|v| v.as_str()), Some("2"));
    assert_eq!(bound.get("c").map(|v| v.as_str()), Some("3"));

    match repl.validate_arguments("cmd", &parameters, &[]) {
        Err(error) => assert_eq!(error, Error::MissingRequiredArgument("cmd".into(), "a".into())),
        Ok(_) => panic!("a required parameter went unbound"),
    }
    match repl.validate_arguments("cmd", &parameters, &["1", "2", "3", "4"]) {
        Err(error) => assert_eq!(error, Error::TooManyArguments("cmd".into(), 3)),
        Ok(_) => panic!("four arguments were taken for three parameters"),
    }
    let bound = repl.validate_arguments("none", &[], &[]).unwrap();
    assert_eq!(bound.len(), 0);
}

#[test]
fn validate_arguments_later_parameter_takes_a_shared_name() {
    let repl: Repl<(), Error> = Repl::new(());
    let parameters = vec![Parameter::new("x"), Parameter::new("x")];
    let bound = repl.validate_arguments("cmd", &parameters, &["1", "2"]).unwrap();
    assert_eq!(bound.len(), 1);
    assert_eq!(bound.get("x").map(|v| v.as_str()), Some("2"));
}

#[test]
fn step_follows_the_state_machine() {
    let mut repl = recording_repl();
    let step = repl.step(Input::Line("hush".to_string()));
    assert_eq!(step, Step::Continue(Reply::Nothing));
    assert_eq!(step.state(), State::Idle);

    let step = repl.step(Input::Line("nope".to_string()));
    assert_eq!(step, Step::Report(Error::UnknownCommand("nope".to_string())));
    assert_eq!(step.state(), State::Idle);

    let step = repl.step(Input::EndOfInput);
    assert_eq!(step, Step::Quit);
    assert_eq!(step.state(), State::Quit);
    assert_eq!(repl.step(Input::Interrupt), Step::Quit);

    let step = repl.step(Input::Failure);
    assert_eq!(step, Step::Fatal(None));
    assert_eq!(step.state(), State::Fatal);
}

/// Lets the loop go on after every failure.
struct Lenient;

impl<Context, H> ErrorHandler<Context, Error, H> for Lenient {
    fn handle(&self, _error: Error, _session: &Session<Context, Error, H>) -> Result<(), Error> {
        Ok(())
    }
}

#[test]
fn step_routes_failures_through_the_hook() {
    let mut repl = recording_repl().with_error_handler(Lenient);
    assert_eq!(repl.step(Input::Line("nope".to_string())), Step::Continue(Reply::Nothing));
    assert_eq!(repl.step(Input::Line("fail".to_string())), Step::Continue(Reply::Nothing));

    let mut repl = recording_repl().with_error_handler(Strict);
    assert_eq!(
        repl.step(Input::Line("foo a b c".to_string())),
        Step::Fatal(Some(Error::TooManyArguments("foo".into(), 2)))
    );
    assert_eq!(
        repl.step(Input::Line("foo a b".to_string())),
        Step::Continue(Reply::Output("bar=a;baz=b;2 bound".to_string()))
    );
}

#[test]
fn builders_set_what_they_name() {
    let repl: Repl<(), Error> = Repl::new(());
    assert_eq!(repl.session().name(), "");
    assert_eq!(repl.session().prompt(), "> ");
    assert_eq!(repl.session().banner(), &None);
    assert_eq!(repl.session().history(), &None);
    assert!(repl.session().help_context().is_none());

    let repl = repl
        .with_name("MyApp")
        .with_version("v0.1.0")
        .with_description("My very cool app")
        .with_banner("Welcome")
        .with_history(std::path::PathBuf::from("history.txt"));
    assert_eq!(repl.session().name(), "MyApp");
    assert_eq!(repl.session().version(), "v0.1.0");
    assert_eq!(repl.session().description(), "My very cool app");
    assert_eq!(repl.session().banner(), &Some("Welcome".to_string()));
    assert_eq!(repl.session().prompt(), "MyApp> ");
    assert_eq!(repl.session().history(), &Some(std::path::PathBuf::from("history.txt")));

    let repl = repl.with_prompt("$ ").with_name("Other");
    assert_eq!(repl.session().name(), "Other");
    assert_eq!(repl.session().prompt(), "$ ");
}

#[test]
fn the_error_hook_given_last_is_the_one_told() {
    let mut repl = recording_repl().with_error_handler(Strict).with_error_handler(Lenient);
    assert_eq!(repl.step(Input::Line("nope".to_string())), Step::Continue(Reply::Nothing));

    let mut repl = recording_repl().with_error_handler(Lenient).with_error_handler(Strict);
    assert_eq!(
        repl.step(Input::Line("nope".to_string())),
        Step::Fatal(Some(Error::UnknownCommand("nope".to_string())))
    );
}

#[test]
fn the_hook_that_stands_for_none_lets_failures_pass() {
    let mut repl = recording_repl().with_error_handler(NoErrorHandler);
    assert_eq!(repl.step(Input::Line("nope".to_string())), Step::Continue(Reply::Nothing));
    assert_eq!(
        ErrorHandler::<Vec<String>, Error>::handle(
            &NoErrorHandler,
            Error::TokenPatternRejected,
            repl.session()
        ),
        Ok(())
    );
}

#[test]
fn a_boxed_handler_answers_as_the_handler_in_the_box() {
    let handler = boxed(Record(vec!["x"]));
    let mut context = Vec::new();
    let mut arguments = Arguments::new();
    arguments.insert("x".to_string(), reedline_repl_rs::Value::new("1"));
    assert_eq!(handler.call(arguments, &mut context), Ok(Some("x=1;1 bound".to_string())));
    assert_eq!(context, vec!["x=1;1 bound".to_string()]);
}

#[test]
fn commands_of_one_handler_type_need_no_box() {
    let mut repl = Repl::new(())
        .add_command(Command::new("foo", Foo))
        .add_command(Command::new("bar", Foo).with_parameter(Parameter::new("x")).unwrap());
    assert_eq!(
        repl.process_line("bar 1".to_string()),
        Ok(Reply::Output("foo with 1 arguments".to_string()))
    );
    assert_eq!(
        repl.process_line("foo".to_string()),
        Ok(Reply::Output("foo with 0 arguments".to_string()))
    );
}
