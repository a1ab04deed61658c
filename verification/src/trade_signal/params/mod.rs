//! Routes a validated field map to the parser of its asset class and tags the
//! result with that class.
//!
//! `position` and `ttl` are common fields that the caller consumes; each class
//! parser consumes only its own fields, and the caller checks that nothing is
//! left over.

pub mod defi;
pub mod option;
pub mod perp;
pub mod prediction;
pub mod spot;

use vstd::prelude::*;
use crate::asset_class::AssetClass;
use crate::trade_signal::error::ParseError;
use crate::trade_signal::fields::{FieldId, FieldMap};
use crate::trade_signal::{SignalParams, SignalParamsV};

verus! {

pub open spec fn tag_spot(r: Result<crate::trade_signal::SpotParamsV, ParseError>) -> Result<SignalParamsV, ParseError> {
    match r {
        Ok(p) => Ok(SignalParamsV::Spot(p)),
        Err(e) => Err(e),
    }
}

pub open spec fn tag_perp(r: Result<crate::trade_signal::PerpParamsV, ParseError>) -> Result<SignalParamsV, ParseError> {
    match r {
        Ok(p) => Ok(SignalParamsV::Perp(p)),
        Err(e) => Err(e),
    }
}

pub open spec fn tag_prediction(r: Result<crate::trade_signal::PredictionParamsV, ParseError>) -> Result<SignalParamsV, ParseError> {
    match r {
        Ok(p) => Ok(SignalParamsV::Prediction(p)),
        Err(e) => Err(e),
    }
}

pub open spec fn tag_option(r: Result<crate::trade_signal::OptionParamsV, ParseError>) -> Result<SignalParamsV, ParseError> {
    match r {
        Ok(p) => Ok(SignalParamsV::Option(p)),
        Err(e) => Err(e),
    }
}

pub open spec fn tag_defi(r: Result<crate::trade_signal::DefiParamsV, ParseError>) -> Result<SignalParamsV, ParseError> {
    match r {
        Ok(p) => Ok(SignalParamsV::Defi(p)),
        Err(e) => Err(e),
    }
}

/// The class parameters read from the entries, and the entries left over.
pub open spec fn spec_dispatch(class: AssetClass, e: Seq<(FieldId, Seq<char>)>) -> (Result<SignalParamsV, ParseError>, Seq<(FieldId, Seq<char>)>) {
    match class {
        AssetClass::Spot => (tag_spot(spot::spec_spot(e).0), spot::spec_spot(e).1),
        AssetClass::Perp => (tag_perp(perp::spec_perp(e).0), perp::spec_perp(e).1),
        AssetClass::Prediction => (
            tag_prediction(prediction::spec_prediction(e).0),
            prediction::spec_prediction(e).1,
        ),
        AssetClass::Option => (tag_option(option::spec_option(e).0), option::spec_option(e).1),
        AssetClass::Defi => (tag_defi(defi::spec_defi(e).0), defi::spec_defi(e).1),
    }
}

pub open spec fn params_result_view(r: Result<SignalParams, ParseError>) -> Result<SignalParamsV, ParseError> {
    match r {
        Ok(p) => Ok(p@),
        Err(e) => Err(e),
    }
}

/// Builds the class-specific parameters from the remaining fields.
pub fn dispatch(class: AssetClass, fm: &mut FieldMap) -> (r: Result<SignalParams, ParseError>)
    ensures
        params_result_view(r) == spec_dispatch(class, old(fm)@).0,
        final(fm)@ == spec_dispatch(class, old(fm)@).1,
{
    match class {
        AssetClass::Spot => match spot::parse(fm) {
            Ok(p) => Ok(SignalParams::Spot(p)),
            Err(e) => Err(e),
        },
        AssetClass::Perp => match perp::parse(fm) {
            Ok(p) => Ok(SignalParams::Perp(p)),
            Err(e) => Err(e),
        },
        AssetClass::Prediction => match prediction::parse(fm) {
            Ok(p) => Ok(SignalParams::Prediction(p)),
            Err(e) => Err(e),
        },
        AssetClass::Option => match option::parse(fm) {
            Ok(p) => Ok(SignalParams::Option(p)),
            Err(e) => Err(e),
        },
        AssetClass::Defi => match defi::parse_labeled(fm) {
            Ok(p) => Ok(SignalParams::Defi(p)),
            Err(e) => Err(e),
        },
    }
}

} // verus!
