//! The text bound to a parameter.

use crate::conversion::{character_of, integer_within, parse_integer, truth_of};
use crate::error::{Error, ErrorView};
use crate::text::characters;
use vstd::hash_map::StringHashMap;
use vstd::prelude::*;

verus! {

/// The text of one bound argument. Values compare as their texts do.
#[derive(Debug, Clone, PartialEq, Eq, PartialOrd, Ord, Hash)]
pub struct Value {
    value: String,
}

impl View for Value {
    type V = Seq<char>;

    closed spec fn view(&self) -> Seq<char> {
        self.value@
    }
}

impl Value {
    /// Wraps the text of an argument.
    pub fn new(value: &str) -> (wrapped: Value)
        ensures
            wrapped@ == value@,
    {
        Value { value: value.to_owned() }
    }

    /// The text as it was bound.
    pub fn as_str(&self) -> (text: &str)
        ensures
            text@ == self@,
    {
        self.value.as_str()
    }
}

/// The arguments bound for one call of a handler: the value of each
/// parameter that has one, by the parameter's name.
pub type Arguments = StringHashMap<Value>;

/// The texts of a mapping from parameter names to values.
pub open spec fn texts(arguments: Map<Seq<char>, Value>) -> Map<Seq<char>, Seq<char>> {
    arguments.map_values(|value: Value| value@)
}

/// Reading a value of type `T` out of the text of an argument.
pub trait Convert<T> {
    fn convert(&self) -> Result<T, Error>;
}

/// `result` is the value that the text denotes, or, where it denotes none,
/// the failure to convert the text.
pub open spec fn converts<T>(result: Result<T, Error>, denoted: Option<T>, text: Seq<char>) -> bool {
    match denoted {
        Some(value) => result == Ok::<T, Error>(value),
        None => result matches Err(error) && error@ == ErrorView::ValueConversionError(text),
    }
}

/// `result` is a text of the same characters.
pub open spec fn keeps_text(result: Result<String, Error>, text: Seq<char>) -> bool {
    result matches Ok(value) && value@ == text
}

impl Value {
    /// The failure to convert this value.
    fn unconvertible(&self) -> (error: Error)
        ensures
            error@ == ErrorView::ValueConversionError(self@),
    {
        Error::ValueConversionError(self.value.clone())
    }
}

impl Convert<String> for Value {
    /// Every text is a text.
    fn convert(&self) -> (result: Result<String, Error>)
        ensures
            keeps_text(result, self@),
    {
        Ok(self.value.clone())
    }
}

impl Convert<bool> for Value {
    /// Reads `true` or `false`.
    fn convert(&self) -> (result: Result<bool, Error>)
        ensures
            converts(result, truth_of(self@), self@),
    {
        proof {
            reveal_strlit("true");
            reveal_strlit("false");
            assert("true"@ =~= seq!['t', 'r', 'u', 'e']);
            assert("false"@ =~= seq!['f', 'a', 'l', 's', 'e']);
        }
        if self.value.as_str().eq("true") {
            Ok(true)
        } else if self.value.as_str().eq("false") {
            Ok(false)
        } else {
            Err(self.unconvertible())
        }
    }
}

impl Convert<char> for Value {
    /// Reads the one character of the text.
    fn convert(&self) -> (result: Result<char, Error>)
        ensures
            converts(result, character_of(self@), self@),
    {
        let chars = characters(self.value.as_str());
        if chars.len() == 1 {
            Ok(chars[0])
        } else {
            Err(self.unconvertible())
        }
    }
}

impl Convert<i8> for Value {
    /// Reads a decimal integer that fits `i8`.
    fn convert(&self) -> (result: Result<i8, Error>)
        ensures
            converts(
                result,
                match integer_within(self@, true, i8::MIN as int, i8::MAX as int) {
                    Some(n) => Some(n as i8),
                    None => None,
                },
                self@,
            ),
    {
        match parse_integer(self.value.as_str(), true, i8::MIN as i128, i8::MAX as i128) {
            Some(n) => Ok(n as i8),
            None => Err(self.unconvertible()),
        }
    }
}

impl Convert<i16> for Value {
    /// Reads a decimal integer that fits `i16`.
    fn convert(&self) -> (result: Result<i16, Error>)
        ensures
            converts(
                result,
                match integer_within(self@, true, i16::MIN as int, i16::MAX as int) {
                    Some(n) => Some(n as i16),
                    None => None,
                },
                self@,
            ),
    {
        match parse_integer(self.value.as_str(), true, i16::MIN as i128, i16::MAX as i128) {
            Some(n) => Ok(n as i16),
            None => Err(self.unconvertible()),
        }
    }
}

impl Convert<i32> for Value {
    /// Reads a decimal integer that fits `i32`.
    fn convert(&self) -> (result: Result<i32, Error>)
        ensures
            converts(
                result,
                match integer_within(self@, true, i32::MIN as int, i32::MAX as int) {
                    Some(n) => Some(n as i32),
                    None => None,
                },
                self@,
            ),
    {
        match parse_integer(self.value.as_str(), true, i32::MIN as i128, i32::MAX as i128) {
            Some(n) => Ok(n as i32),
            None => Err(self.unconvertible()),
        }
    }
}

impl Convert<i64> for Value {
    /// Reads a decimal integer that fits `i64`.
    fn convert(&self) -> (result: Result<i64, Error>)
        ensures
            converts(
                result,
                match integer_within(self@, true, i64::MIN as int, i64::MAX as int) {
                    Some(n) => Some(n as i64),
                    None => None,
                },
                self@,
            ),
    {
        match parse_integer(self.value.as_str(), true, i64::MIN as i128, i64::MAX as i128) {
            Some(n) => Ok(n as i64),
            None => Err(self.unconvertible()),
        }
    }
}

impl Convert<isize> for Value {
    /// Reads a decimal integer that fits `isize`.
    fn convert(&self) -> (result: Result<isize, Error>)
        ensures
            converts(
                result,
                match integer_within(self@, true, isize::MIN as int, isize::MAX as int) {
                    Some(n) => Some(n as isize),
                    None => None,
                },
                self@,
            ),
    {
        match parse_integer(self.value.as_str(), true, isize::MIN as i128, isize::MAX as i128) {
            Some(n) => Ok(n as isize),
            None => Err(self.unconvertible()),
        }
    }
}

impl Convert<u8> for Value {
    /// Reads a decimal integer that fits `u8`.
    fn convert(&self) -> (result: Result<u8, Error>)
        ensures
            converts(
                result,
                match integer_within(self@, false, u8::MIN as int, u8::MAX as int) {
                    Some(n) => Some(n as u8),
                    None => None,
                },
                self@,
            ),
    {
        match parse_integer(self.value.as_str(), false, u8::MIN as i128, u8::MAX as i128) {
            Some(n) => Ok(n as u8),
            None => Err(self.unconvertible()),
        }
    }
}

impl Convert<u16> for Value {
    /// Reads a decimal integer that fits `u16`.
    fn convert(&self) -> (result: Result<u16, Error>)
        ensures
            converts(
                result,
                match integer_within(self@, false, u16::MIN as int, u16::MAX as int) {
                    Some(n) => Some(n as u16),
                    None => None,
                },
                self@,
            ),
    {
        match parse_integer(self.value.as_str(), false, u16::MIN as i128, u16::MAX as i128) {
            Some(n) => Ok(n as u16),
            None => Err(self.unconvertible()),
        }
    }
}

impl Convert<u32> for Value {
    /// Reads a decimal integer that fits `u32`.
    fn convert(&self) -> (result: Result<u32, Error>)
        ensures
            converts(
                result,
                match integer_within(self@, false, u32::MIN as int, u32::MAX as int) {
                    Some(n) => Some(n as u32),
                    None => None,
                },
                self@,
            ),
    {
        match parse_integer(self.value.as_str(), false, u32::MIN as i128, u32::MAX as i128) {
            Some(n) => Ok(n as u32),
            None => Err(self.unconvertible()),
        }
    }
}

impl Convert<u64> for Value {
    /// Reads a decimal integer that fits `u64`.
    fn convert(&self) -> (result: Result<u64, Error>)
        ensures
            converts(
                result,
                match integer_within(self@, false, u64::MIN as int, u64::MAX as int) {
                    Some(n) => Some(n as u64),
                    None => None,
                },
                self@,
            ),
    {
        match parse_integer(self.value.as_str(), false, u64::MIN as i128, u64::MAX as i128) {
            Some(n) => Ok(n as u64),
            None => Err(self.unconvertible()),
        }
    }
}

impl Convert<usize> for Value {
    /// Reads a decimal integer that fits `usize`.
    fn convert(&self) -> (result: Result<usize, Error>)
        ensures
            converts(
                result,
                match integer_within(self@, false, usize::MIN as int, usize::MAX as int) {
                    Some(n) => Some(n as usize),
                    None => None,
                },
                self@,
            ),
    {
        match parse_integer(self.value.as_str(), false, usize::MIN as i128, usize::MAX as i128) {
            Some(n) => Ok(n as usize),
            None => Err(self.unconvertible()),
        }
    }
}

} // verus!
