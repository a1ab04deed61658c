//! Prediction parser. The `outcome` field is a single `<OUTCOME> @<odds>`
//! value: an outcome keyword (YES / NO / UP / DOWN) and absolute odds in
//! `[0, 1]`, separated by exactly one `@`. `settleDate` is a real
//! `YYYY-MM-DD`. `event` is free text, captured only on success.

use vstd::prelude::*;
use crate::trade_signal::error::ParseError;
use crate::trade_signal::fields::{
    drop_id, parse_date, parse_outcome_odds, require_val, spec_parse_date,
    spec_parse_outcome_odds, FieldId, FieldMap, lemma_odds_bounded, dv_one, take_val, ids_unique,
    lemma_take_once,
};
use crate::decimal::{dec_parts, dv_le};
use crate::text::{split_on, trim};
use crate::trade_signal::{Outcome, PredictionParams, PredictionParamsV};

verus! {

/// The prediction parameters read from the entries, and the entries left over.
pub open spec fn spec_prediction(e: Seq<(FieldId, Seq<char>)>) -> (Result<PredictionParamsV, ParseError>, Seq<(FieldId, Seq<char>)>) {
    let e1 = drop_id(e, FieldId::Event);
    match require_val(e, FieldId::Event) {
        Err(x) => (Err(x), e1),
        Ok(event) => {
            let e2 = drop_id(e1, FieldId::Outcome);
            match require_val(e1, FieldId::Outcome) {
                Err(x) => (Err(x), e2),
                Ok(ov) => match spec_parse_outcome_odds(ov) {
                    Err(x) => (Err(x), e2),
                    Ok((outcome, odds)) => {
                        let e3 = drop_id(e2, FieldId::SettleDate);
                        match require_val(e2, FieldId::SettleDate) {
                            Err(x) => (Err(x), e3),
                            Ok(dv) => match spec_parse_date(dv) {
                                Err(x) => (Err(x), e3),
                                Ok(settle_date) => (
                                    Ok(PredictionParamsV { event, outcome, odds, settle_date }),
                                    e3,
                                ),
                            },
                        }
                    },
                },
            }
        },
    }
}

pub open spec fn prediction_result_view(r: Result<PredictionParams, ParseError>) -> Result<PredictionParamsV, ParseError> {
    match r {
        Ok(p) => Ok(p@),
        Err(e) => Err(e),
    }
}

/// Reads the prediction parameters from the field map.
pub fn parse(fm: &mut FieldMap) -> (r: Result<PredictionParams, ParseError>)
    ensures
        prediction_result_view(r) == spec_prediction(old(fm)@).0,
        final(fm)@ == spec_prediction(old(fm)@).1,
{
    let event = fm.require(FieldId::Event)?;
    let (outcome, odds) = parse_outcome_odds(fm.require(FieldId::Outcome)?.as_str())?;
    let settle_date = parse_date(fm.require(FieldId::SettleDate)?.as_str())?;
    Ok(PredictionParams { event, outcome, odds, settle_date })
}

/// Every prediction that parses has odds of at most 1.
pub proof fn lemma_prediction_odds(e: Seq<(FieldId, Seq<char>)>)
    ensures
        spec_prediction(e).0 matches Ok(p) ==> dv_le(dec_parts(p.odds), dv_one()),
{
    match take_val(drop_id(e, FieldId::Event), FieldId::Outcome) {
        Some(ov) => {
            let parts = split_on(ov, '@');
            if parts.len() == 2 {
                lemma_odds_bounded(trim(parts[1]));
            }
        },
        None => {},
    }
}


/// The keyword before the `@` of an outcome field, trimmed.
pub open spec fn outcome_word(v: Seq<char>) -> Seq<char> {
    trim(split_on(v, '@')[0])
}

/// A prediction that parses says what its fields say: its event is that
/// field's text, and its outcome field is one keyword and one `@` and odds,
/// the outcome being `Yes`, `No`, `Up` or `Down` exactly when that keyword
/// reads `YES`, `NO`, `UP` or `DOWN`.
pub proof fn lemma_prediction_fields(e: Seq<(FieldId, Seq<char>)>)
    requires
        ids_unique(e),
    ensures
        spec_prediction(e).0 matches Ok(p) ==> {
            &&& take_val(e, FieldId::Event) == Some(p.event)
            &&& take_val(e, FieldId::Outcome) is Some
            &&& split_on(take_val(e, FieldId::Outcome)->0, '@').len() == 2
            &&& (p.outcome == Outcome::Yes <==> outcome_word(take_val(e, FieldId::Outcome)->0) == "YES"@)
            &&& (p.outcome == Outcome::No <==> outcome_word(take_val(e, FieldId::Outcome)->0) == "NO"@)
            &&& (p.outcome == Outcome::Up <==> outcome_word(take_val(e, FieldId::Outcome)->0) == "UP"@)
            &&& (p.outcome == Outcome::Down <==> outcome_word(take_val(e, FieldId::Outcome)->0) == "DOWN"@)
        },
{
    reveal_strlit("YES");
    reveal_strlit("NO");
    reveal_strlit("UP");
    reveal_strlit("DOWN");
    assert("YES"@ != "NO"@ && "YES"@ != "UP"@ && "YES"@ != "DOWN"@) by {
        assert("YES"@.len() == 3 && "NO"@.len() == 2 && "UP"@.len() == 2 && "DOWN"@.len() == 4);
    }
    assert("NO"@ != "UP"@) by {
        assert("NO"@[0] != "UP"@[0]);
    }
    assert("NO"@ != "DOWN"@ && "UP"@ != "DOWN"@) by {
        assert("DOWN"@.len() == 4);
    }
    lemma_take_once(e, FieldId::Event);
}

} // verus!
