//! The closed set of parse / validation / envelope failures.
//!
//! `code()`, `field()` and `message()` return only stable, value-free static
//! text: no error can carry any part of the input.

use vstd::prelude::*;

verus! {

/// The stable closed set of parse, validation and envelope failures. The
/// `code()` strings are the external stability contract.
#[derive(Debug, Clone, Copy, PartialEq, Eq, Structural)]
pub enum ParseError {
    /// Empty input string.
    EmptyInput,
    /// First char is neither `{` nor `【`, or there is leading whitespace.
    UnsupportedFormat,
    /// Envelope JSON is malformed / has an unknown or missing field.
    InvalidEnvelope,
    /// `schemaVersion` is not the required V2 value.
    InvalidSchemaVersion,
    /// `deliveryId` is absent / too long / has an illegal character.
    InvalidDeliveryId,
    /// `signalTime` is `0` (must be a non-zero epoch-ms stamp).
    InvalidSignalTime,
    /// More than 200 Unicode chars.
    TooLong,
    /// Contains a line break (single-line only).
    MultiLine,
    /// Header not in the whitelist / preceded by whitespace / half-width `[`.
    UnknownHeader,
    /// Wrong field count/order for the asset class (missing required label / extra / reordered / duplicate).
    FieldCountError,
    /// Any field empty after trim.
    EmptyField,
    /// Mixed Chinese/English labels in one signal.
    LanguageMix,
    /// Non-whitelist token variant.
    IllegalKeyword,
    /// Sci-notation, thousands separator, %-price, or otherwise non-decimal number.
    InvalidNumber,
    /// Value out of the allowed range (position, TTL, odds, slippage, leverage, inverted range).
    OutOfRange,
    /// Missing year / nonexistent / malformed `YYYY-MM-DD`.
    InvalidDate,
    /// Stop-loss or take-profit on the wrong side; 0 or 4 take-profits; numbering gap.
    DirectionConstraint,
    /// `contractCode` inconsistent with Call/Put, strike, or expiry.
    OptionFieldMismatch,
    /// Emoji, link, out-of-place `@`-mention, unknown field: content beyond the field grammar.
    ForbiddenContent,
}

/// The stable snake_case machine code.
pub open spec fn spec_code(e: ParseError) -> Seq<char> {
    match e {
        ParseError::EmptyInput => "empty_input"@,
        ParseError::UnsupportedFormat => "unsupported_format"@,
        ParseError::InvalidEnvelope => "invalid_envelope"@,
        ParseError::InvalidSchemaVersion => "invalid_schema_version"@,
        ParseError::InvalidDeliveryId => "invalid_delivery_id"@,
        ParseError::InvalidSignalTime => "invalid_signal_time"@,
        ParseError::TooLong => "too_long"@,
        ParseError::MultiLine => "multi_line"@,
        ParseError::UnknownHeader => "unknown_header"@,
        ParseError::FieldCountError => "field_count_error"@,
        ParseError::EmptyField => "empty_field"@,
        ParseError::LanguageMix => "language_mix"@,
        ParseError::IllegalKeyword => "illegal_keyword"@,
        ParseError::InvalidNumber => "invalid_number"@,
        ParseError::OutOfRange => "out_of_range"@,
        ParseError::InvalidDate => "invalid_date"@,
        ParseError::DirectionConstraint => "direction_constraint"@,
        ParseError::OptionFieldMismatch => "option_field_mismatch"@,
        ParseError::ForbiddenContent => "forbidden_content"@,
    }
}

/// The stable name of the offending parameter, if any.
pub open spec fn spec_field(e: ParseError) -> Option<Seq<char>> {
    match e {
        ParseError::EmptyInput => None,
        ParseError::UnsupportedFormat => None,
        ParseError::InvalidEnvelope => Some("envelope"@),
        ParseError::InvalidSchemaVersion => Some("schemaVersion"@),
        ParseError::InvalidDeliveryId => Some("deliveryId"@),
        ParseError::InvalidSignalTime => Some("signalTime"@),
        ParseError::TooLong => None,
        ParseError::MultiLine => None,
        ParseError::UnknownHeader => None,
        ParseError::FieldCountError => None,
        ParseError::EmptyField => None,
        ParseError::LanguageMix => None,
        ParseError::IllegalKeyword => Some("keyword"@),
        ParseError::InvalidNumber => Some("number"@),
        ParseError::OutOfRange => Some("range"@),
        ParseError::InvalidDate => Some("date"@),
        ParseError::DirectionConstraint => Some("takeProfit"@),
        ParseError::OptionFieldMismatch => Some("contractCode"@),
        ParseError::ForbiddenContent => None,
    }
}

/// The generic, value-free human message.
pub open spec fn spec_message(e: ParseError) -> Seq<char> {
    match e {
        ParseError::EmptyInput => "input is empty"@,
        ParseError::UnsupportedFormat => "unsupported input format"@,
        ParseError::InvalidEnvelope => "invalid v2 envelope"@,
        ParseError::InvalidSchemaVersion => "unsupported schema version"@,
        ParseError::InvalidDeliveryId => "invalid delivery id"@,
        ParseError::InvalidSignalTime => "invalid signal time"@,
        ParseError::TooLong => "input exceeds the 200 character limit"@,
        ParseError::MultiLine => "input must be a single line"@,
        ParseError::UnknownHeader => "unrecognized signal header"@,
        ParseError::FieldCountError => "wrong number or order of fields for the asset class"@,
        ParseError::EmptyField => "a field is empty after trimming"@,
        ParseError::LanguageMix => "mixed-language labels are not allowed"@,
        ParseError::IllegalKeyword => "unrecognized keyword variant"@,
        ParseError::InvalidNumber => "malformed number"@,
        ParseError::OutOfRange => "value is out of the allowed range"@,
        ParseError::InvalidDate => "invalid calendar date"@,
        ParseError::DirectionConstraint => "stop-loss/take-profit direction constraint violated"@,
        ParseError::OptionFieldMismatch => "contract code is inconsistent with its fields"@,
        ParseError::ForbiddenContent => "input contains content beyond the field grammar"@,
    }
}

impl ParseError {
    /// Stable machine code string (external contract).
    pub fn code(&self) -> (r: &'static str)
        ensures
            r@ == spec_code(*self),
    {
        match self {
            ParseError::EmptyInput => "empty_input",
            ParseError::UnsupportedFormat => "unsupported_format",
            ParseError::InvalidEnvelope => "invalid_envelope",
            ParseError::InvalidSchemaVersion => "invalid_schema_version",
            ParseError::InvalidDeliveryId => "invalid_delivery_id",
            ParseError::InvalidSignalTime => "invalid_signal_time",
            ParseError::TooLong => "too_long",
            ParseError::MultiLine => "multi_line",
            ParseError::UnknownHeader => "unknown_header",
            ParseError::FieldCountError => "field_count_error",
            ParseError::EmptyField => "empty_field",
            ParseError::LanguageMix => "language_mix",
            ParseError::IllegalKeyword => "illegal_keyword",
            ParseError::InvalidNumber => "invalid_number",
            ParseError::OutOfRange => "out_of_range",
            ParseError::InvalidDate => "invalid_date",
            ParseError::DirectionConstraint => "direction_constraint",
            ParseError::OptionFieldMismatch => "option_field_mismatch",
            ParseError::ForbiddenContent => "forbidden_content",
        }
    }

    /// Stable field name for the offending parameter, or `None`. Never the value.
    pub fn field(&self) -> (r: Option<&'static str>)
        ensures
            match r {
                Some(s) => spec_field(*self) == Some(s@),
                None => spec_field(*self) is None,
            },
    {
        match self {
            ParseError::EmptyInput => None,
            ParseError::UnsupportedFormat => None,
            ParseError::InvalidEnvelope => Some("envelope"),
            ParseError::InvalidSchemaVersion => Some("schemaVersion"),
            ParseError::InvalidDeliveryId => Some("deliveryId"),
            ParseError::InvalidSignalTime => Some("signalTime"),
            ParseError::TooLong => None,
            ParseError::MultiLine => None,
            ParseError::UnknownHeader => None,
            ParseError::FieldCountError => None,
            ParseError::EmptyField => None,
            ParseError::LanguageMix => None,
            ParseError::IllegalKeyword => Some("keyword"),
            ParseError::InvalidNumber => Some("number"),
            ParseError::OutOfRange => Some("range"),
            ParseError::InvalidDate => Some("date"),
            ParseError::DirectionConstraint => Some("takeProfit"),
            ParseError::OptionFieldMismatch => Some("contractCode"),
            ParseError::ForbiddenContent => None,
        }
    }

    /// Generic, value-free human message.
    pub fn message(&self) -> (r: &'static str)
        ensures
            r@ == spec_message(*self),
    {
        match self {
            ParseError::EmptyInput => "input is empty",
            ParseError::UnsupportedFormat => "unsupported input format",
            ParseError::InvalidEnvelope => "invalid v2 envelope",
            ParseError::InvalidSchemaVersion => "unsupported schema version",
            ParseError::InvalidDeliveryId => "invalid delivery id",
            ParseError::InvalidSignalTime => "invalid signal time",
            ParseError::TooLong => "input exceeds the 200 character limit",
            ParseError::MultiLine => "input must be a single line",
            ParseError::UnknownHeader => "unrecognized signal header",
            ParseError::FieldCountError => "wrong number or order of fields for the asset class",
            ParseError::EmptyField => "a field is empty after trimming",
            ParseError::LanguageMix => "mixed-language labels are not allowed",
            ParseError::IllegalKeyword => "unrecognized keyword variant",
            ParseError::InvalidNumber => "malformed number",
            ParseError::OutOfRange => "value is out of the allowed range",
            ParseError::InvalidDate => "invalid calendar date",
            ParseError::DirectionConstraint => "stop-loss/take-profit direction constraint violated",
            ParseError::OptionFieldMismatch => "contract code is inconsistent with its fields",
            ParseError::ForbiddenContent => "input contains content beyond the field grammar",
        }
    }
}

/// Distinct errors have distinct codes, so a code names exactly one error.
pub proof fn lemma_codes_distinct(a: ParseError, b: ParseError)
    ensures
        a != b ==> spec_code(a) != spec_code(b),
{
    // Each code differs from the others in its length, its first character or
    // its ninth character.
    reveal_strlit("empty_input");
    reveal_strlit("unsupported_format");
    reveal_strlit("invalid_envelope");
    reveal_strlit("invalid_schema_version");
    reveal_strlit("invalid_delivery_id");
    reveal_strlit("invalid_signal_time");
    reveal_strlit("too_long");
    reveal_strlit("multi_line");
    reveal_strlit("unknown_header");
    reveal_strlit("field_count_error");
    reveal_strlit("empty_field");
    reveal_strlit("language_mix");
    reveal_strlit("illegal_keyword");
    reveal_strlit("invalid_number");
    reveal_strlit("out_of_range");
    reveal_strlit("invalid_date");
    reveal_strlit("direction_constraint");
    reveal_strlit("option_field_mismatch");
    reveal_strlit("forbidden_content");
    assert("empty_input"@.len() == 11 && "empty_input"@[0] == 'e' && "empty_input"@[8] == 'p');
    assert("unsupported_format"@.len() == 18 && "unsupported_format"@[0] == 'u' && "unsupported_format"@[8] == 't');
    assert("invalid_envelope"@.len() == 16 && "invalid_envelope"@[0] == 'i' && "invalid_envelope"@[8] == 'e');
    assert("invalid_schema_version"@.len() == 22 && "invalid_schema_version"@[0] == 'i' && "invalid_schema_version"@[8] == 's');
    assert("invalid_delivery_id"@.len() == 19 && "invalid_delivery_id"@[0] == 'i' && "invalid_delivery_id"@[8] == 'd');
    assert("invalid_signal_time"@.len() == 19 && "invalid_signal_time"@[0] == 'i' && "invalid_signal_time"@[8] == 's');
    assert("too_long"@.len() == 8 && "too_long"@[0] == 't');
    assert("multi_line"@.len() == 10 && "multi_line"@[0] == 'm' && "multi_line"@[8] == 'n');
    assert("unknown_header"@.len() == 14 && "unknown_header"@[0] == 'u' && "unknown_header"@[8] == 'h');
    assert("field_count_error"@.len() == 17 && "field_count_error"@[0] == 'f' && "field_count_error"@[8] == 'u');
    assert("empty_field"@.len() == 11 && "empty_field"@[0] == 'e' && "empty_field"@[8] == 'e');
    assert("language_mix"@.len() == 12 && "language_mix"@[0] == 'l' && "language_mix"@[8] == '_');
    assert("illegal_keyword"@.len() == 15 && "illegal_keyword"@[0] == 'i' && "illegal_keyword"@[8] == 'k');
    assert("invalid_number"@.len() == 14 && "invalid_number"@[0] == 'i' && "invalid_number"@[8] == 'n');
    assert("out_of_range"@.len() == 12 && "out_of_range"@[0] == 'o' && "out_of_range"@[8] == 'a');
    assert("invalid_date"@.len() == 12 && "invalid_date"@[0] == 'i' && "invalid_date"@[8] == 'd');
    assert("direction_constraint"@.len() == 20 && "direction_constraint"@[0] == 'd' && "direction_constraint"@[8] == 'n');
    assert("option_field_mismatch"@.len() == 21 && "option_field_mismatch"@[0] == 'o' && "option_field_mismatch"@[8] == 'i');
    assert("forbidden_content"@.len() == 17 && "forbidden_content"@[0] == 'f' && "forbidden_content"@[8] == 'n');
}

} // verus!
