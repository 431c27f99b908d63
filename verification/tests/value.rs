use reedline_repl_rs::{Convert, Error, Value};

fn failure(text: &str) -> Error {
    Error::ValueConversionError(text.to_string())
}

#[test]
fn value_keeps_its_text() {
    let value = Value::new("baz test 123");
    assert_eq!(value.as_str(), "baz test 123");
    let text: String = value.convert().unwrap();
    assert_eq!(text, "baz test 123");
    let empty: String = Value::new("").convert().unwrap();
    assert_eq!(empty, "");
}

#[test]
fn values_compare_as_their_texts() {
    assert_eq!(Value::new("a"), Value::new("a"));
    assert_ne!(Value::new("a"), Value::new("A"));
    assert!(Value::new("a") < Value::new("b"));
    assert!(Value::new("10") < Value::new("9"));
    assert!(Value::new("") < Value::new(" "));
}

#[test]
fn convert_bool_reads_true_and_false_only() {
    assert_eq!(Convert::<bool>::convert(&Value::new("true")), Ok(true));
    assert_eq!(Convert::<bool>::convert(&Value::new("false")), Ok(false));
    for text in ["", "True", "FALSE", " true", "true ", "1", "0", "yes", "tru", "truee"] {
        assert_eq!(Convert::<bool>::convert(&Value::new(text)), Err(failure(text)), "{:?}", text);
    }
}

#[test]
fn convert_char_reads_a_single_character() {
    assert_eq!(Convert::<char>::convert(&Value::new("x")), Ok('x'));
    assert_eq!(Convert::<char>::convert(&Value::new("é")), Ok('é'));
    assert_eq!(Convert::<char>::convert(&Value::new(" ")), Ok(' '));
    assert_eq!(Convert::<char>::convert(&Value::new("")), Err(failure("")));
    assert_eq!(Convert::<char>::convert(&Value::new("xy")), Err(failure("xy")));
}

#[test]
fn convert_integer_reads_signs_and_digits() {
    assert_eq!(Convert::<i32>::convert(&Value::new("42")), Ok(42));
    assert_eq!(Convert::<i32>::convert(&Value::new("+42")), Ok(42));
    assert_eq!(Convert::<i32>::convert(&Value::new("-42")), Ok(-42));
    assert_eq!(Convert::<i32>::convert(&Value::new("-0")), Ok(0));
    assert_eq!(Convert::<i32>::convert(&Value::new("007")), Ok(7));
    assert_eq!(Convert::<i64>::convert(&Value::new("1234567890123")), Ok(1234567890123));
    assert_eq!(Convert::<u32>::convert(&Value::new("+7")), Ok(7));
    assert_eq!(Convert::<usize>::convert(&Value::new("0")), Ok(0));
}

#[test]
fn convert_integer_refuses_what_is_no_integer() {
    for text in ["", "+", "-", "--1", "+-1", "4 2", " 42", "42 ", "1_000", "0x10", "1e3", "4.2", "１２", "twelve"]
    {
        assert_eq!(Convert::<i32>::convert(&Value::new(text)), Err(failure(text)), "{:?}", text);
        assert_eq!(Convert::<u64>::convert(&Value::new(text)), Err(failure(text)), "{:?}", text);
    }
}

#[test]
fn convert_integer_refuses_what_does_not_fit() {
    assert_eq!(Convert::<i8>::convert(&Value::new("127")), Ok(127));
    assert_eq!(Convert::<i8>::convert(&Value::new("128")), Err(failure("128")));
    assert_eq!(Convert::<i8>::convert(&Value::new("-128")), Ok(-128));
    assert_eq!(Convert::<i8>::convert(&Value::new("-129")), Err(failure("-129")));
    assert_eq!(Convert::<u8>::convert(&Value::new("255")), Ok(255));
    assert_eq!(Convert::<u8>::convert(&Value::new("256")), Err(failure("256")));
    assert_eq!(Convert::<u8>::convert(&Value::new("-1")), Err(failure("-1")));
    assert_eq!(Convert::<u8>::convert(&Value::new("-0")), Err(failure("-0")));
    assert_eq!(Convert::<i16>::convert(&Value::new("-32768")), Ok(i16::MIN));
    assert_eq!(Convert::<u16>::convert(&Value::new("65535")), Ok(u16::MAX));
    assert_eq!(Convert::<u16>::convert(&Value::new("65536")), Err(failure("65536")));
    assert_eq!(Convert::<i64>::convert(&Value::new("9223372036854775807")), Ok(i64::MAX));
    assert_eq!(
        Convert::<i64>::convert(&Value::new("9223372036854775808")),
        Err(failure("9223372036854775808"))
    );
    assert_eq!(Convert::<i64>::convert(&Value::new("-9223372036854775808")), Ok(i64::MIN));
    assert_eq!(
        Convert::<i64>::convert(&Value::new("-9223372036854775809")),
        Err(failure("-9223372036854775809"))
    );
    assert_eq!(Convert::<u64>::convert(&Value::new("18446744073709551615")), Ok(u64::MAX));
    assert_eq!(
        Convert::<u64>::convert(&Value::new("18446744073709551616")),
        Err(failure("18446744073709551616"))
    );
    let long = "9".repeat(60);
    assert_eq!(Convert::<u64>::convert(&Value::new(&long)), Err(failure(&long)));
    let zeros = format!("{}1", "0".repeat(60));
    assert_eq!(Convert::<u8>::convert(&Value::new(&zeros)), Ok(1));
}

#[test]
fn convert_agrees_with_the_standard_library() {
    let texts = [
        "", "0", "-0", "+0", "1", "-1", "+1", "127", "128", "-128", "-129", "255", "256", "32767",
        "32768", "-32768", "-32769", "65535", "65536", "2147483647", "2147483648", "-2147483648",
        "-2147483649", "4294967295", "4294967296", "9223372036854775807", "9223372036854775808",
        "-9223372036854775808", "-9223372036854775809", "18446744073709551615",
        "18446744073709551616", "340282366920938463463374607431768211456", "00", "-00012", "+-1",
        "1+", "a", " 1", "1 ", "1\n", "٣", "true", "false", "x",
    ];
    for text in texts {
        let value = Value::new(text);
        assert_eq!(Convert::<i8>::convert(&value).ok(), text.parse::<i8>().ok(), "{:?}", text);
        assert_eq!(Convert::<i16>::convert(&value).ok(), text.parse::<i16>().ok(), "{:?}", text);
        assert_eq!(Convert::<i32>::convert(&value).ok(), text.parse::<i32>().ok(), "{:?}", text);
        assert_eq!(Convert::<i64>::convert(&value).ok(), text.parse::<i64>().ok(), "{:?}", text);
        assert_eq!(Convert::<isize>::convert(&value).ok(), text.parse::<isize>().ok(), "{:?}", text);
        assert_eq!(Convert::<u8>::convert(&value).ok(), text.parse::<u8>().ok(), "{:?}", text);
        assert_eq!(Convert::<u16>::convert(&value).ok(), text.parse::<u16>().ok(), "{:?}", text);
        assert_eq!(Convert::<u32>::convert(&value).ok(), text.parse::<u32>().ok(), "{:?}", text);
        assert_eq!(Convert::<u64>::convert(&value).ok(), text.parse::<u64>().ok(), "{:?}", text);
        assert_eq!(Convert::<usize>::convert(&value).ok(), text.parse::<usize>().ok(), "{:?}", text);
        assert_eq!(Convert::<bool>::convert(&value).ok(), text.parse::<bool>().ok(), "{:?}", text);
        assert_eq!(Convert::<char>::convert(&value).ok(), text.parse::<char>().ok(), "{:?}", text);
    }
}
