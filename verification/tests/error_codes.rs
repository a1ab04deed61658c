use onchainos::trade_signal::error::ParseError;

#[test]
fn code_matches_external_contract() {
    assert_eq!(ParseError::EmptyInput.code(), "empty_input");
    assert_eq!(ParseError::UnsupportedFormat.code(), "unsupported_format");
    assert_eq!(ParseError::InvalidEnvelope.code(), "invalid_envelope");
    assert_eq!(ParseError::InvalidSchemaVersion.code(), "invalid_schema_version");
    assert_eq!(ParseError::InvalidDeliveryId.code(), "invalid_delivery_id");
    assert_eq!(ParseError::InvalidSignalTime.code(), "invalid_signal_time");
    assert_eq!(ParseError::TooLong.code(), "too_long");
    assert_eq!(ParseError::MultiLine.code(), "multi_line");
    assert_eq!(ParseError::UnknownHeader.code(), "unknown_header");
    assert_eq!(ParseError::FieldCountError.code(), "field_count_error");
    assert_eq!(ParseError::EmptyField.code(), "empty_field");
    assert_eq!(ParseError::LanguageMix.code(), "language_mix");
    assert_eq!(ParseError::IllegalKeyword.code(), "illegal_keyword");
    assert_eq!(ParseError::InvalidNumber.code(), "invalid_number");
    assert_eq!(ParseError::OutOfRange.code(), "out_of_range");
    assert_eq!(ParseError::InvalidDate.code(), "invalid_date");
    assert_eq!(ParseError::DirectionConstraint.code(), "direction_constraint");
    assert_eq!(ParseError::OptionFieldMismatch.code(), "option_field_mismatch");
    assert_eq!(ParseError::ForbiddenContent.code(), "forbidden_content");
}

#[test]
fn envelope_faults_have_distinct_fields() {
    assert_eq!(ParseError::InvalidSchemaVersion.field(), Some("schemaVersion"));
    assert_eq!(ParseError::InvalidDeliveryId.field(), Some("deliveryId"));
    assert_eq!(ParseError::InvalidSignalTime.field(), Some("signalTime"));
}

#[test]
fn display_writes_value_free_message() {
    assert_eq!(ParseError::OutOfRange.message(), "value is out of the allowed range");
}

#[test]
fn every_code_is_distinct() {
    let all = [
        ParseError::EmptyInput,
        ParseError::UnsupportedFormat,
        ParseError::InvalidEnvelope,
        ParseError::InvalidSchemaVersion,
        ParseError::InvalidDeliveryId,
        ParseError::InvalidSignalTime,
        ParseError::TooLong,
        ParseError::MultiLine,
        ParseError::UnknownHeader,
        ParseError::FieldCountError,
        ParseError::EmptyField,
        ParseError::LanguageMix,
        ParseError::IllegalKeyword,
        ParseError::InvalidNumber,
        ParseError::OutOfRange,
        ParseError::InvalidDate,
        ParseError::DirectionConstraint,
        ParseError::OptionFieldMismatch,
        ParseError::ForbiddenContent,
    ];
    for (i, a) in all.iter().enumerate() {
        for (j, b) in all.iter().enumerate() {
            if i != j {
                assert_ne!(a.code(), b.code());
            }
        }
    }
}

#[test]
fn field_names_never_carry_values() {
    assert_eq!(ParseError::EmptyInput.field(), None);
    assert_eq!(ParseError::OutOfRange.field(), Some("range"));
    assert_eq!(ParseError::OptionFieldMismatch.field(), Some("contractCode"));
    assert_eq!(ParseError::DirectionConstraint.field(), Some("takeProfit"));
    assert_eq!(ParseError::TooLong.message(), "input exceeds the 200 character limit");
}
