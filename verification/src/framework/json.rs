//! Texts as JSON.

use crate::framework::writer;
use vstd::prelude::*;

verus! {

/// A character as it stands in a JSON string.
pub open spec fn json_char(c: char) -> Seq<char> {
    if c == '"' || c == '\\' {
        seq!['\\', c]
    } else if c as int == 8 {
        seq!['\\', 'b']
    } else if c == '\t' {
        seq!['\\', 't']
    } else if c == '\n' {
        seq!['\\', 'n']
    } else if c as int == 12 {
        seq!['\\', 'f']
    } else if c == '\r' {
        seq!['\\', 'r']
    } else if (c as int) < 32 {
        seq![
            '\\',
            'u',
            '0',
            '0',
            writer::hex_digit(c as int / 16),
            writer::hex_digit(c as int % 16),
        ]
    } else {
        seq![c]
    }
}

/// The characters of a text as they stand in a JSON string.
pub open spec fn json_chars(text: Seq<char>) -> Seq<char>
    decreases text.len(),
{
    if text.len() == 0 {
        Seq::empty()
    } else {
        json_chars(text.drop_last()) + json_char(text.last())
    }
}

/// A text as a JSON string.
pub open spec fn json_text(text: Seq<char>) -> Seq<char> {
    "\""@ + json_chars(text) + "\""@
}

/// Writes a text as JSON with `serde_json::to_string`: between quotes, with quotes, backslashes and
/// control characters escaped. The text is written to memory, so that writing does not fail.
#[verifier::external_body]
fn to_json(text: &str) -> (json: Option<String>)
    ensures
        json.is_some(),
        json.unwrap()@ == json_text(text@),
{
    serde_json::to_string(text).ok()
}

/// A text as JSON: between quotes, with quotes, backslashes and control characters escaped.
pub fn text_as_json(text: &str) -> (json: String)
    ensures
        json@ == json_text(text@),
{
    match to_json(text) {
        Some(json) => json,
        None => String::new(),
    }
}

} // verus!
