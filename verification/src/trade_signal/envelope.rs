//! The V2 wire envelope: `schemaVersion`, `deliveryId` and `signalTime` are
//! checked first, each with its own error, then the inner `signalText` is
//! parsed.

use vstd::prelude::*;
use crate::autotrade::grants::is_safe_id;
use crate::autotrade::schema::check_delivery_id;
use super::error::ParseError;
use super::{parse_signal_text, signal_result_view, spec_parse_signal_text, ParsedSignal, ParsedSignalV};

verus! {

/// The schema version of a V2 text envelope.
pub const V2_SCHEMA_VERSION: u32 = 2;

/// The V2 wire envelope.
#[derive(Debug, Clone, PartialEq, Eq)]
pub struct V2Envelope {
    pub schema_version: u32,
    pub delivery_id: String,
    /// Non-zero epoch milliseconds.
    pub signal_time: u64,
    pub signal_text: String,
}

/// What a decoded envelope yields: a schema version other than 2 →
/// `InvalidSchemaVersion`; a delivery id that is not 1 to 128 characters of
/// `[A-Za-z0-9_-]` → `InvalidDeliveryId`; a zero signal time →
/// `InvalidSignalTime`; otherwise the parse of the signal text.
pub open spec fn spec_check_envelope(env: V2Envelope) -> Result<ParsedSignalV, ParseError> {
    if env.schema_version != V2_SCHEMA_VERSION {
        Err(ParseError::InvalidSchemaVersion)
    } else if !is_safe_id(env.delivery_id@) {
        Err(ParseError::InvalidDeliveryId)
    } else if env.signal_time == 0 {
        Err(ParseError::InvalidSignalTime)
    } else {
        spec_parse_signal_text(env.signal_text@)
    }
}

/// Validates the protocol fields of a decoded envelope, then parses its
/// signal text. The delivery id goes through the same rule as the automatic
/// copy-trade path.
pub fn check_envelope(env: &V2Envelope) -> (r: Result<ParsedSignal, ParseError>)
    ensures
        signal_result_view(r) == spec_check_envelope(*env),
{
    if env.schema_version != V2_SCHEMA_VERSION {
        return Err(ParseError::InvalidSchemaVersion);
    }
    if check_delivery_id(env.delivery_id.as_str()).is_err() {
        return Err(ParseError::InvalidDeliveryId);
    }
    if env.signal_time == 0 {
        return Err(ParseError::InvalidSignalTime);
    }
    parse_signal_text(env.signal_text.as_str())
}

} // verus!
