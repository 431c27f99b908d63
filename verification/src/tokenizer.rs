//! Splitting a line of input into tokens.
//!
//! A token is either a double-quoted span without a quote or a line break
//! inside it, or a maximal run of characters that are not white space. The
//! spans are found by the pattern engine. A quoted span gives the text
//! between its two quotes; a run gives itself, with every quote that it
//! holds. So a quote that is never closed stays in its token: the run that
//! it begins is kept as it was matched.

use crate::error::{Error, ErrorView};
use crate::text::characters;
use vstd::prelude::*;

verus! {

/// The pattern that one token matches: a quoted span, or else a run of
/// characters that are not white space.
pub const TOKEN_PATTERN: &'static str = "(\"[^\"\\n]+\"|[\\S]+)";

/// The characters that count as white space: those with the Unicode property
/// `White_Space`.
pub open spec fn is_white_space(c: char) -> bool {
    let code = c as u32;
    ||| 0x09 <= code <= 0x0D
    ||| code == 0x20
    ||| code == 0x85
    ||| code == 0xA0
    ||| code == 0x1680
    ||| 0x2000 <= code <= 0x200A
    ||| code == 0x2028
    ||| code == 0x2029
    ||| code == 0x202F
    ||| code == 0x205F
    ||| code == 0x3000
}

/// A line is blank when it holds nothing but white space.
pub open spec fn blank(line: Seq<char>) -> bool {
    forall|i: int| 0 <= i < line.len() ==> is_white_space(#[trigger] line[i])
}

/// Where the first character that is not white space stands; the length of
/// a blank line.
pub open spec fn leading_white_space(line: Seq<char>) -> int
    decreases line.len(),
{
    if line.len() == 0 || !is_white_space(line[0]) {
        0
    } else {
        1 + leading_white_space(line.drop_first())
    }
}

/// How many characters of white space end the line.
pub open spec fn trailing_white_space(line: Seq<char>) -> int
    decreases line.len(),
{
    if line.len() == 0 || !is_white_space(line.last()) {
        0
    } else {
        1 + trailing_white_space(line.drop_last())
    }
}

/// The line without the white space that leads and ends it.
pub open spec fn trimmed(line: Seq<char>) -> Seq<char> {
    if blank(line) {
        Seq::empty()
    } else {
        line.subrange(leading_white_space(line), line.len() - trailing_white_space(line))
    }
}

/// A span is in quoted form when it begins and ends with a double quote and
/// holds, between the two, a character at least and neither a double quote
/// nor a line break.
pub open spec fn is_quoted(span: Seq<char>) -> bool {
    &&& span.len() >= 3
    &&& span[0] == '"'
    &&& span.last() == '"'
    &&& forall|i: int| 0 < i < span.len() - 1 ==> #[trigger] span[i] != '"' && span[i] != '\n'
}

/// The token that a span stands for: the text between the quotes of a span
/// in quoted form, and every other span as it is. A run that holds a quote
/// which is never closed, or quotes with nothing between them, is such
/// another span: it is kept as it was matched, quotes and all.
pub open spec fn token_of(span: Seq<char>) -> Seq<char> {
    if is_quoted(span) {
        span.subrange(1, span.len() - 1)
    } else {
        span
    }
}

/// The spans of `text` that `pattern` matches, from left to right and without
/// overlap, as the pattern engine finds them; `None` where the engine does
/// not accept the pattern. The engine is asked about the token pattern only.
pub uninterp spec fn pattern_matches(pattern: Seq<char>, text: Seq<char>) -> Option<
    Seq<Seq<char>>,
>;

/// The tokens that the matched spans stand for, span by span.
pub open spec fn tokens_from(found: Seq<Seq<char>>) -> Seq<Seq<char>> {
    found.map_values(|span: Seq<char>| token_of(span))
}

/// The tokens of a line: none for a blank line, else what the spans that
/// the token pattern matches in the trimmed line stand for. `None` where the
/// engine does not accept the token pattern.
pub open spec fn tokens_of(line: Seq<char>) -> Option<Seq<Seq<char>>> {
    if blank(line) {
        Some(Seq::empty())
    } else {
        match pattern_matches(TOKEN_PATTERN@, trimmed(line)) {
            Some(found) => Some(tokens_from(found)),
            None => None,
        }
    }
}

/// `Regex::new` followed by `Regex::captures_iter` of the crate `regex`,
/// keeping of each match its group 0, the whole matched span. Trusted, and
/// for the token pattern only: the outcome is a function of the pattern and
/// the text alone, `None` exactly when `Regex::new` returns an error. Of
/// other patterns nothing is claimed; whether the engine takes one that
/// comes near its size limit can depend on the machine.
#[verifier::external_body]
fn find_matches(pattern: &str, text: &str) -> (found: Option<Vec<String>>)
    requires
        pattern@ == TOKEN_PATTERN@,
    ensures
        match found {
            Some(spans) => pattern_matches(pattern@, text@) == Some(spans.deep_view()),
            None => pattern_matches(pattern@, text@) is None,
        },
{
    match regex::Regex::new(pattern) {
        Ok(compiled) => Some(compiled.captures_iter(text).map(|c| c[0].to_string()).collect()),
        Err(_) => None,
    }
}

/// Whether `c` is white space.
pub fn white_space(c: char) -> (r: bool)
    ensures
        r == is_white_space(c),
{
    let code: u32 = c as u32;
    (0x09 <= code && code <= 0x0D) || code == 0x20 || code == 0x85 || code == 0xA0 || code
        == 0x1680 || (0x2000 <= code && code <= 0x200A) || code == 0x2028 || code == 0x2029
        || code == 0x202F || code == 0x205F || code == 0x3000
}

proof fn lemma_leading(line: Seq<char>, n: int)
    requires
        0 <= n <= line.len(),
        forall|i: int| 0 <= i < n ==> is_white_space(#[trigger] line[i]),
        n == line.len() || !is_white_space(line[n]),
    ensures
        leading_white_space(line) == n,
    decreases n,
{
    if n > 0 {
        let rest = line.drop_first();
        assert forall|i: int| 0 <= i < n - 1 implies is_white_space(#[trigger] rest[i]) by {
            assert(rest[i] == line[i + 1]);
        }
        lemma_leading(rest, n - 1);
    }
}

proof fn lemma_trailing(line: Seq<char>, n: int)
    requires
        0 <= n <= line.len(),
        forall|i: int| line.len() - n <= i < line.len() ==> is_white_space(#[trigger] line[i]),
        n == line.len() || !is_white_space(line[line.len() - n - 1]),
    ensures
        trailing_white_space(line) == n,
    decreases n,
{
    if n > 0 {
        let rest = line.drop_last();
        assert forall|i: int| rest.len() - (n - 1) <= i < rest.len() implies is_white_space(
            #[trigger] rest[i],
        ) by {
            assert(rest[i] == line[i]);
        }
        lemma_trailing(rest, n - 1);
    }
}

/// The line without the white space around it.
pub fn trim(line: &str) -> (text: &str)
    ensures
        text@ == trimmed(line@),
{
    let chars = characters(line);
    let mut start: usize = 0;
    while start < chars.len() && white_space(chars[start])
        invariant
            start <= chars.len(),
            forall|i: int| 0 <= i < start ==> is_white_space(#[trigger] chars@[i]),
        decreases chars.len() - start,
    {
        start = start + 1;
    }
    if start == chars.len() {
        return line.substring_char(0, 0);
    }
    let mut end: usize = chars.len();
    while end > start + 1 && white_space(chars[end - 1])
        invariant
            start < end <= chars.len(),
            !is_white_space(chars@[start as int]),
            forall|i: int| end <= i < chars.len() ==> is_white_space(#[trigger] chars@[i]),
        decreases end,
    {
        end = end - 1;
    }
    proof {
        assert(!is_white_space(chars@[end - 1]));
        lemma_leading(chars@, start as int);
        lemma_trailing(chars@, chars.len() - end);
    }
    line.substring_char(start, end)
}

/// Whether the line holds nothing but white space.
pub fn is_blank(line: &str) -> (r: bool)
    ensures
        r == blank(line@),
{
    let chars = characters(line);
    let mut i: usize = 0;
    while i < chars.len()
        invariant
            i <= chars.len(),
            chars@ == line@,
            forall|k: int| 0 <= k < i ==> is_white_space(#[trigger] chars@[k]),
        decreases chars.len() - i,
    {
        if !white_space(chars[i]) {
            return false;
        }
        i = i + 1;
    }
    true
}

/// Takes the enclosing quotes off a span in quoted form, and leaves every
/// other span as it is.
pub fn strip_quotes(span: &str) -> (token: String)
    ensures
        token@ == token_of(span@),
{
    let chars = characters(span);
    let n = chars.len();
    if n >= 3 && chars[0] == '"' && chars[n - 1] == '"' {
        let mut i: usize = 1;
        while i < n - 1 && chars[i] != '"' && chars[i] != '\n'
            invariant
                1 <= i <= n - 1,
                n == chars@.len(),
                forall|k: int| 0 < k < i ==> #[trigger] chars@[k] != '"' && chars@[k] != '\n',
            decreases n - i,
        {
            i = i + 1;
        }
        if i == n - 1 {
            return span.substring_char(1, n - 1).to_owned();
        }
        assert(!is_quoted(span@)) by {
            assert(chars@[i as int] == '"' || chars@[i as int] == '\n');
        }
    }
    span.to_owned()
}

/// Turns the spans that the token pattern matched into tokens.
pub fn tokens_from_matches(found: &Vec<String>) -> (tokens: Vec<String>)
    ensures
        tokens.deep_view() == tokens_from(found.deep_view()),
{
    let mut tokens: Vec<String> = Vec::new();
    let mut i: usize = 0;
    while i < found.len()
        invariant
            i <= found.len(),
            tokens.len() == i,
            forall|k: int| 0 <= k < i ==> (#[trigger] tokens@[k])@ == token_of(found@[k]@),
        decreases found.len() - i,
    {
        tokens.push(strip_quotes(found[i].as_str()));
        i = i + 1;
    }
    assert(tokens.deep_view() =~= tokens_from(found.deep_view()));
    tokens
}

/// Splits a line into its tokens. A blank line has none.
pub fn tokenize(line: &str) -> (result: Result<Vec<String>, Error>)
    ensures
        match tokens_of(line@) {
            Some(tokens) => result matches Ok(found) && found.deep_view() == tokens,
            None => result matches Err(error) && error@ == ErrorView::TokenPatternRejected,
        },
{
    if is_blank(line) {
        let tokens: Vec<String> = Vec::new();
        assert(tokens.deep_view() =~= Seq::empty());
        return Ok(tokens);
    }
    match find_matches(TOKEN_PATTERN, trim(line)) {
        Some(found) => Ok(tokens_from_matches(&found)),
        None => Err(Error::TokenPatternRejected),
    }
}

/// The token of a span in quoted form holds neither a double quote nor a
/// line break and is not empty; a span that is not in quoted form, a run
/// with a quote that is never closed among them, is its own token.
pub proof fn lemma_token_of_span(span: Seq<char>)
    ensures
        is_quoted(span) ==> token_of(span).len() == span.len() - 2 && forall|i: int|
            0 <= i < token_of(span).len() ==> #[trigger] token_of(span)[i] != '"' && token_of(
                span,
            )[i] != '\n',
        !is_quoted(span) ==> token_of(span) == span,
{
    if is_quoted(span) {
        assert forall|i: int| 0 <= i < token_of(span).len() implies #[trigger] token_of(span)[i]
            != '"' && token_of(span)[i] != '\n' by {
            assert(token_of(span)[i] == span[i + 1]);
        }
    }
}

} // verus!
