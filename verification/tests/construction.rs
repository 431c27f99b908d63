use reedline_repl_rs::{Arguments, Command, Error, Handler, Parameter};

struct Nothing;

impl Handler<(), Error> for Nothing {
    fn call(&self, _args: Arguments, _context: &mut ()) -> Result<Option<String>, Error> {
        Ok(None)
    }
}

#[test]
fn parameter_starts_optional_without_default() {
    let parameter = Parameter::new("who");
    assert_eq!(parameter.name(), "who");
    assert!(!parameter.is_required());
    assert_eq!(parameter.default_value(), None);
}

#[test]
fn parameter_required_then_default_fails() {
    assert_eq!(
        Parameter::new("p").set_required(true).unwrap().set_default("d"),
        Err(Error::IllegalDefaultError("p".to_string()))
    );
}

#[test]
fn parameter_default_then_required_fails() {
    assert_eq!(
        Parameter::new("p").set_default("d").unwrap().set_required(true),
        Err(Error::IllegalDefaultError("p".to_string()))
    );
}

#[test]
fn parameter_default_then_optional_is_fine() {
    let parameter = Parameter::new("p").set_default("d").unwrap().set_required(false).unwrap();
    assert!(!parameter.is_required());
    assert_eq!(parameter.default_value(), Some("d"));
}

#[test]
fn parameter_required_can_be_taken_back() {
    let parameter = Parameter::new("p")
        .set_required(true)
        .unwrap()
        .set_required(false)
        .unwrap()
        .set_default("")
        .unwrap();
    assert!(!parameter.is_required());
    assert_eq!(parameter.default_value(), Some(""));
}

#[test]
fn command_keeps_parameters_in_order() {
    let command = Command::<(), Error>::new("add", Box::new(Nothing))
        .with_parameter(Parameter::new("first").set_required(true).unwrap())
        .unwrap()
        .with_parameter(Parameter::new("second").set_required(true).unwrap())
        .unwrap()
        .with_parameter(Parameter::new("third"))
        .unwrap()
        .with_help("Add two numbers together");
    assert_eq!(command.name(), "add");
    let names: Vec<&str> = command.parameters().iter().map(|p| p.name()).collect();
    assert_eq!(names, vec!["first", "second", "third"]);
    assert_eq!(command.help_summary(), &Some("Add two numbers together".to_string()));
}

#[test]
fn command_required_after_optional_fails_whatever_stands_between() {
    let result = Command::<(), Error>::new("c", Box::new(Nothing))
        .with_parameter(Parameter::new("a"))
        .unwrap()
        .with_parameter(Parameter::new("b").set_default("x").unwrap())
        .unwrap()
        .with_parameter(Parameter::new("late").set_required(true).unwrap());
    match result {
        Err(error) => assert_eq!(error, Error::IllegalRequiredError("late".to_string())),
        Ok(_) => panic!("a required parameter was accepted after an optional one"),
    }
}

#[test]
fn command_invoke_calls_the_handler() {
    let command = Command::<(), Error>::new("c", Box::new(Nothing));
    assert_eq!(command.invoke(Arguments::new(), &mut ()), Ok(None));
}
