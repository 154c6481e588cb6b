//! JSON string literals, written by `serde_json`.

use crate::error::TransportError;
use vstd::prelude::*;

verus! {

#[verifier::external_type_specification]
#[verifier::external_body]
pub struct ExJsonError(serde_json::Error);

/// The lower-case hexadecimal digit of a value below sixteen.
pub open spec fn hex_digit(value: int) -> char
    recommends
        0 <= value < 16,
{
    seq!['0', '1', '2', '3', '4', '5', '6', '7', '8', '9', 'a', 'b', 'c', 'd', 'e', 'f'][value]
}

/// One character as it stands inside a JSON string literal. The quote and
/// the backslash get a backslash in front; backspace, tab, line feed, form
/// feed and carriage return are written with their letter; every other
/// character below the space is written as `\u00` and two hexadecimal
/// digits; all the rest, the slash and what lies beyond ASCII too, is
/// written as it is.
pub open spec fn escaped_char(c: char) -> Seq<char> {
    if c == '"' {
        seq!['\\', '"']
    } else if c == '\\' {
        seq!['\\', '\\']
    } else if c == '\u{8}' {
        seq!['\\', 'b']
    } else if c == '\t' {
        seq!['\\', 't']
    } else if c == '\n' {
        seq!['\\', 'n']
    } else if c == '\u{c}' {
        seq!['\\', 'f']
    } else if c == '\r' {
        seq!['\\', 'r']
    } else if (c as u32) < 0x20 {
        seq![
            '\\',
            'u',
            '0',
            '0',
            hex_digit((c as u32) as int / 16),
            hex_digit((c as u32) as int % 16),
        ]
    } else {
        seq![c]
    }
}

/// A text with each of its characters escaped, in order.
pub open spec fn escaped(text: Seq<char>) -> Seq<char>
    decreases text.len(),
{
    if text.len() == 0 {
        Seq::empty()
    } else {
        escaped(text.drop_last()) + escaped_char(text.last())
    }
}

/// The JSON string literal for a text: the escaped text between double
/// quotes.
pub open spec fn json_string(text: Seq<char>) -> Seq<char> {
    seq!['"'] + escaped(text) + seq!['"']
}

/// `serde_json::to_string` on a string slice. The call succeeds on every
/// string: it writes into a vector in memory, and no string is refused. Its
/// result is the JSON string literal of the text, escaped as the writer's
/// table of escapes has it.
#[verifier::external_body]
fn write_string(text: &str) -> (r: Result<String, serde_json::Error>)
    ensures
        r is Ok,
        r matches Ok(literal) ==> literal@ == json_string(text@),
{
    serde_json::to_string(text)
}

/// `to_string` on a `serde_json::Error`: the message of the error. Nothing
/// is claimed of the message.
#[verifier::external_body]
fn error_message(error: &serde_json::Error) -> String {
    error.to_string()
}

/// Writes `text` as a JSON string literal. The writer takes every text; the
/// result type leaves room for its error, which would come back as
/// `InvalidFormat` with the writer's message.
pub fn quote(text: &str) -> (r: Result<String, TransportError>)
    ensures
        r is Ok,
        r matches Ok(literal) ==> literal@ == json_string(text@),
{
    match write_string(text) {
        Ok(literal) => Ok(literal),
        Err(error) => Err(TransportError::InvalidFormat(error_message(&error))),
    }
}

} // verus!
