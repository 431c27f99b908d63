//! Reading typed values out of the text of an argument.

use crate::text::characters;
use vstd::prelude::*;

verus! {

/// The decimal digits.
pub open spec fn is_digit(c: char) -> bool {
    '0' as int <= c as int <= '9' as int
}

/// The number that a decimal digit stands for.
pub open spec fn digit_value(c: char) -> int {
    c as int - '0' as int
}

/// The text holds a digit at least, and digits only.
pub open spec fn all_digits(text: Seq<char>) -> bool {
    text.len() > 0 && forall|i: int| 0 <= i < text.len() ==> is_digit(#[trigger] text[i])
}

/// The number that a run of decimal digits stands for.
pub open spec fn decimal(digits: Seq<char>) -> int
    decreases digits.len(),
{
    if digits.len() == 0 {
        0
    } else {
        10 * decimal(digits.drop_last()) + digit_value(digits.last())
    }
}

/// The integer that a text denotes: decimal digits, after a `+` if one
/// leads, or after a `-` for the negative where negatives are read. Nothing
/// else denotes an integer: no white space, no sign alone.
pub open spec fn integer_of(text: Seq<char>, signed: bool) -> Option<int> {
    if text.len() > 0 && text[0] == '+' {
        if all_digits(text.skip(1)) {
            Some(decimal(text.skip(1)))
        } else {
            None
        }
    } else if signed && text.len() > 0 && text[0] == '-' {
        if all_digits(text.skip(1)) {
            Some(-decimal(text.skip(1)))
        } else {
            None
        }
    } else if all_digits(text) {
        Some(decimal(text))
    } else {
        None
    }
}

/// The integer between `min` and `max` that a text denotes, if it denotes one.
pub open spec fn integer_within(text: Seq<char>, signed: bool, min: int, max: int) -> Option<int> {
    match integer_of(text, signed) {
        Some(n) => if min <= n <= max {
            Some(n)
        } else {
            None
        },
        None => None,
    }
}

/// The truth value that a text denotes: `true` or `false`, spelt so.
pub open spec fn truth_of(text: Seq<char>) -> Option<bool> {
    if text == seq!['t', 'r', 'u', 'e'] {
        Some(true)
    } else if text == seq!['f', 'a', 'l', 's', 'e'] {
        Some(false)
    } else {
        None
    }
}

/// The character that a text denotes: the only one it holds.
pub open spec fn character_of(text: Seq<char>) -> Option<char> {
    if text.len() == 1 {
        Some(text[0])
    } else {
        None
    }
}

/// A run of digits stands for a number that is not negative and not below
/// what any of its beginnings stands for.
pub proof fn lemma_decimal_grows(digits: Seq<char>, n: int)
    requires
        0 <= n <= digits.len(),
        forall|i: int| 0 <= i < digits.len() ==> is_digit(#[trigger] digits[i]),
    ensures
        0 <= decimal(digits.take(n)) <= decimal(digits),
    decreases digits.len() - n,
{
    lemma_decimal_is_natural(digits.take(n));
    if n == digits.len() {
        assert(digits.take(n) == digits);
    } else {
        lemma_decimal_grows(digits, n + 1);
        let next = digits.take(n + 1);
        assert(next.drop_last() == digits.take(n));
        assert(is_digit(next.last()));
    }
}

proof fn lemma_decimal_is_natural(digits: Seq<char>)
    requires
        forall|i: int| 0 <= i < digits.len() ==> is_digit(#[trigger] digits[i]),
    ensures
        0 <= decimal(digits),
    decreases digits.len(),
{
    if digits.len() > 0 {
        assert(is_digit(digits.last()));
        lemma_decimal_is_natural(digits.drop_last());
    }
}

/// Reads an integer between `min` and `max`.
pub(crate) fn parse_integer(text: &str, signed: bool, min: i128, max: i128) -> (number: Option<
    i128,
>)
    requires
        -0x1_0000_0000_0000_0000 <= min <= 0 <= max <= 0x1_0000_0000_0000_0000,
    ensures
        match integer_within(text@, signed, min as int, max as int) {
            Some(n) => number == Some(n as i128),
            None => number is None,
        },
{
    let chars = characters(text);
    let n = chars.len();
    if n == 0 {
        return None;
    }
    let mut negative = false;
    let mut start: usize = 0;
    if chars[0] == '+' {
        start = 1;
    } else if signed && chars[0] == '-' {
        start = 1;
        negative = true;
    }
    let ghost digits = text@.skip(start as int);
    if start == n {
        return None;
    }
    proof {
        if start == 0 {
            assert(digits == text@);
        }
    }
    assert(integer_of(text@, signed) == if all_digits(digits) {
        Some(
            if negative {
                -decimal(digits)
            } else {
                decimal(digits)
            },
        )
    } else {
        None
    });
    let mut value: i128 = 0;
    let mut i: usize = start;
    while i < n
        invariant
            start <= i <= n,
            n == chars@.len(),
            chars@ == text@,
            digits == text@.skip(start as int),
            -0x1_0000_0000_0000_0000 <= min <= 0 <= max <= 0x1_0000_0000_0000_0000,
            integer_of(text@, signed) == if all_digits(digits) {
                Some(
                    if negative {
                        -decimal(digits)
                    } else {
                        decimal(digits)
                    },
                )
            } else {
                None
            },
            forall|k: int| 0 <= k < i - start ==> is_digit(#[trigger] digits[k]),
            value == decimal(digits.take(i - start)),
            0 <= value <= 0x1_0000_0000_0000_0000,
        decreases n - i,
    {
        let digit: i128 = match chars[i] {
            '0' => 0,
            '1' => 1,
            '2' => 2,
            '3' => 3,
            '4' => 4,
            '5' => 5,
            '6' => 6,
            '7' => 7,
            '8' => 8,
            '9' => 9,
            _ => {
                assert(!is_digit(digits[i - start]));
                return None;
            },
        };
        proof {
            let next = digits.take(i - start + 1);
            assert(next.drop_last() == digits.take(i - start));
            assert(next.last() == chars@[i as int]);
        }
        value = value * 10 + digit;
        if value > 0x1_0000_0000_0000_0000 {
            proof {
                if all_digits(digits) {
                    lemma_decimal_grows(digits, i - start + 1);
                }
            }
            return None;
        }
        i = i + 1;
    }
    assert(digits.take(n - start) == digits);
    assert(all_digits(digits));
    let number = if negative {
        -value
    } else {
        value
    };
    if min <= number && number <= max {
        Some(number)
    } else {
        None
    }
}

} // verus!
