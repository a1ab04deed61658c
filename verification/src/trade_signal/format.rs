//! Input-format detection: an entry point of its own, separate from the text
//! parser.

use vstd::prelude::*;
use crate::text::chars_of;

verus! {

/// Classification of a raw input string.
#[derive(Debug, Clone, Copy, PartialEq, Eq, Structural)]
pub enum InputFormat {
    /// First char `{`: a structured-JSON signal (classified only).
    V1JsonSchema,
    /// First char `【` (U+3010): a text signal.
    V2Text,
    /// Empty, leading whitespace, or any other first char.
    Unsupported,
}

/// The first-char rule, with no leading-whitespace tolerance.
pub open spec fn spec_detect_format(s: Seq<char>) -> InputFormat {
    if s.len() > 0 && s[0] == '{' {
        InputFormat::V1JsonSchema
    } else if s.len() > 0 && s[0] == '\u{3010}' {
        InputFormat::V2Text
    } else {
        InputFormat::Unsupported
    }
}

/// Classifies `input` by its first character.
pub fn detect_format(input: &str) -> (r: InputFormat)
    ensures
        r == spec_detect_format(input@),
{
    let v = chars_of(input);
    if v.len() > 0 && v[0] == '{' {
        InputFormat::V1JsonSchema
    } else if v.len() > 0 && v[0] == '\u{3010}' {
        InputFormat::V2Text
    } else {
        InputFormat::Unsupported
    }
}

} // verus!
