//! Option parser with `contractCode` cross-consistency.
//!
//! `contractCode` = `UNDERLYING-YYMMDD-STRIKE-C|P`. Its date, strike and C/P
//! must match the standalone `expiry`, `strike` and `optionType` fields (the
//! two-digit year reads as 20YY); otherwise `OptionFieldMismatch`.

use vstd::prelude::*;
use crate::text::{all_digit_chars, all_digits, chars_eq_str, chars_of, push_chars, slice_of, split_chars, split_on, string_from_chars, views};
use crate::trade_signal::error::ParseError;
use crate::trade_signal::fields::{
    drop_id, equal, parse_date, parse_decimal, parse_option_side, parse_option_type, require_val,
    spec_equal, spec_parse_date, spec_parse_decimal, spec_parse_option_side,
    spec_parse_option_type, FieldId, FieldMap, ids_unique, lemma_take_once, take_val,
};
use crate::trade_signal::{OptionParams, OptionParamsV, OptionType, Side};

verus! {

/// The expiry date a `YYMMDD` code date stands for: `20YY-MM-DD`.
pub open spec fn code_date(yymmdd: Seq<char>) -> Seq<char> {
    seq!['2', '0'] + yymmdd.subrange(0, 2) + seq!['-'] + yymmdd.subrange(2, 4) + seq!['-']
        + yymmdd.subrange(4, 6)
}

/// Whether the contract code agrees with the typed fields.
pub open spec fn spec_check_contract(
    code: Seq<char>,
    option_type: OptionType,
    strike: Seq<char>,
    expiry: Seq<char>,
) -> Result<(), ParseError> {
    let parts = split_on(code, '-');
    if parts.len() != 4 {
        Err(ParseError::OptionFieldMismatch)
    } else {
        let yymmdd = parts[1];
        let cp = parts[3];
        let cp_ok = (cp == seq!['C'] && option_type == OptionType::Call) || (cp == seq!['P']
            && option_type == OptionType::Put);
        if !cp_ok {
            Err(ParseError::OptionFieldMismatch)
        } else if !spec_equal(parts[2], strike) {
            Err(ParseError::OptionFieldMismatch)
        } else if yymmdd.len() != 6 || !all_digits(yymmdd) {
            Err(ParseError::OptionFieldMismatch)
        } else if code_date(yymmdd) != expiry {
            Err(ParseError::OptionFieldMismatch)
        } else {
            Ok(())
        }
    }
}

/// Checks `UNDERLYING-YYMMDD-STRIKE-(C|P)` against the typed fields.
pub fn check_contract_consistency(
    code: &str,
    option_type: OptionType,
    strike: &str,
    expiry: &str,
) -> (r: Result<(), ParseError>)
    ensures
        r == spec_check_contract(code@, option_type, strike@, expiry@),
{
    let cv = chars_of(code);
    let parts = split_chars(cv.as_slice(), '-');
    assert(views(parts@).len() == parts@.len());
    if parts.len() != 4 {
        return Err(ParseError::OptionFieldMismatch);
    }
    assert(views(parts@)[1] == parts@[1]@ && views(parts@)[2] == parts@[2]@ && views(parts@)[3]
        == parts@[3]@);
    let c_ok = chars_eq_str(parts[3].as_slice(), "C");
    let p_ok = chars_eq_str(parts[3].as_slice(), "P");
    proof {
        reveal_strlit("C");
        reveal_strlit("P");
        assert("C"@ =~= seq!['C']);
        assert("P"@ =~= seq!['P']);
    }
    let cp_ok = (c_ok && option_type == OptionType::Call) || (p_ok && option_type == OptionType::Put);
    if !cp_ok {
        return Err(ParseError::OptionFieldMismatch);
    }
    let cs = string_from_chars(parts[2].as_slice());
    if !equal(cs.as_str(), strike) {
        return Err(ParseError::OptionFieldMismatch);
    }
    let y = &parts[1];
    if y.len() != 6 || !all_digit_chars(y.as_slice()) {
        return Err(ParseError::OptionFieldMismatch);
    }
    let mut d: Vec<char> = Vec::new();
    d.push('2');
    d.push('0');
    let a = slice_of(y.as_slice(), 0, 2);
    push_chars(&mut d, a.as_slice());
    d.push('-');
    let b = slice_of(y.as_slice(), 2, 4);
    push_chars(&mut d, b.as_slice());
    d.push('-');
    let c = slice_of(y.as_slice(), 4, 6);
    push_chars(&mut d, c.as_slice());
    assert(d@ =~= code_date(y@));
    if !chars_eq_str(d.as_slice(), expiry) {
        return Err(ParseError::OptionFieldMismatch);
    }
    Ok(())
}

/// The option parameters read from the entries, and the entries left over.
pub open spec fn spec_option(e: Seq<(FieldId, Seq<char>)>) -> (Result<OptionParamsV, ParseError>, Seq<(FieldId, Seq<char>)>) {
    let e1 = drop_id(e, FieldId::ContractCode);
    let e2 = drop_id(e1, FieldId::Side);
    let e3 = drop_id(e2, FieldId::OptionType);
    let e4 = drop_id(e3, FieldId::Strike);
    let e5 = drop_id(e4, FieldId::Expiry);
    let e6 = drop_id(e5, FieldId::PremiumCap);
    match require_val(e, FieldId::ContractCode) {
        Err(x) => (Err(x), e1),
        Ok(contract_code) => match require_val(e1, FieldId::Side) {
            Err(x) => (Err(x), e2),
            Ok(sv) => match spec_parse_option_side(sv) {
                Err(x) => (Err(x), e2),
                Ok(side) => match require_val(e2, FieldId::OptionType) {
                    Err(x) => (Err(x), e3),
                    Ok(tv) => match spec_parse_option_type(tv) {
                        Err(x) => (Err(x), e3),
                        Ok(option_type) => match require_val(e3, FieldId::Strike) {
                            Err(x) => (Err(x), e4),
                            Ok(kv) => match spec_parse_decimal(kv) {
                                Err(x) => (Err(x), e4),
                                Ok(strike) => match require_val(e4, FieldId::Expiry) {
                                    Err(x) => (Err(x), e5),
                                    Ok(xv) => match spec_parse_date(xv) {
                                        Err(x) => (Err(x), e5),
                                        Ok(expiry) => match require_val(e5, FieldId::PremiumCap) {
                                            Err(x) => (Err(x), e6),
                                            Ok(pv) => match spec_parse_decimal(pv) {
                                                Err(x) => (Err(x), e6),
                                                Ok(premium_cap) => match spec_check_contract(
                                                    contract_code,
                                                    option_type,
                                                    strike,
                                                    expiry,
                                                ) {
                                                    Err(x) => (Err(x), e6),
                                                    Ok(_) => (
                                                        Ok(
                                                            OptionParamsV {
                                                                contract_code,
                                                                side,
                                                                option_type,
                                                                strike,
                                                                expiry,
                                                                premium_cap,
                                                            },
                                                        ),
                                                        e6,
                                                    ),
                                                },
                                            },
                                        },
                                    },
                                },
                            },
                        },
                    },
                },
            },
        },
    }
}

pub open spec fn option_result_view(r: Result<OptionParams, ParseError>) -> Result<OptionParamsV, ParseError> {
    match r {
        Ok(p) => Ok(p@),
        Err(e) => Err(e),
    }
}

/// Reads the option parameters from the field map.
pub fn parse(fm: &mut FieldMap) -> (r: Result<OptionParams, ParseError>)
    ensures
        option_result_view(r) == spec_option(old(fm)@).0,
        final(fm)@ == spec_option(old(fm)@).1,
{
    let contract_code = fm.require(FieldId::ContractCode)?;
    let side = parse_option_side(fm.require(FieldId::Side)?.as_str())?;
    let option_type = parse_option_type(fm.require(FieldId::OptionType)?.as_str())?;
    let strike = parse_decimal(fm.require(FieldId::Strike)?.as_str())?;
    let expiry = parse_date(fm.require(FieldId::Expiry)?.as_str())?;
    let premium_cap = parse_decimal(fm.require(FieldId::PremiumCap)?.as_str())?;
    check_contract_consistency(contract_code.as_str(), option_type, strike.as_str(), expiry.as_str())?;
    Ok(OptionParams { contract_code, side, option_type, strike, expiry, premium_cap })
}


/// Whether a side field names the buying side (`BUY`, `Buy` or `买入`).
pub open spec fn names_buy(v: Seq<char>) -> bool {
    v == "BUY"@ || v == "Buy"@ || v == "买入"@
}

/// Whether a side field names the selling side (`SELL`, `Sell` or `卖出`).
pub open spec fn names_sell(v: Seq<char>) -> bool {
    v == "SELL"@ || v == "Sell"@ || v == "卖出"@
}

/// An option that parses says what its fields say: its contract code is
/// that field's text, its side is `Buy` exactly when the side field names
/// buying and `Sell` exactly when it names selling, and its type is `Call`
/// exactly when the option-type field reads `Call` and `Put` exactly when it
/// reads `Put`.
pub proof fn lemma_option_fields(e: Seq<(FieldId, Seq<char>)>)
    requires
        ids_unique(e),
    ensures
        spec_option(e).0 matches Ok(p) ==> {
            &&& take_val(e, FieldId::ContractCode) == Some(p.contract_code)
            &&& take_val(e, FieldId::Side) is Some
            &&& (p.side == Side::Buy <==> names_buy(take_val(e, FieldId::Side)->0))
            &&& (p.side == Side::Sell <==> names_sell(take_val(e, FieldId::Side)->0))
            &&& (p.option_type == OptionType::Call <==> take_val(e, FieldId::OptionType) == Some("Call"@))
            &&& (p.option_type == OptionType::Put <==> take_val(e, FieldId::OptionType) == Some("Put"@))
        },
{
    reveal_strlit("BUY");
    reveal_strlit("Buy");
    reveal_strlit("买入");
    reveal_strlit("SELL");
    reveal_strlit("Sell");
    reveal_strlit("卖出");
    reveal_strlit("Call");
    reveal_strlit("Put");
    assert(!names_sell("BUY"@) && !names_sell("Buy"@) && !names_sell("买入"@)) by {
        assert("BUY"@.len() == 3 && "Buy"@.len() == 3 && "买入"@.len() == 2);
        assert("SELL"@.len() == 4 && "Sell"@.len() == 4 && "卖出"@.len() == 2);
        assert("买入"@[0] != "卖出"@[0]);
    }
    assert("Call"@ != "Put"@) by {
        assert("Call"@.len() != "Put"@.len());
    }
    let e1 = drop_id(e, FieldId::ContractCode);
    let e2 = drop_id(e1, FieldId::Side);
    lemma_take_once(e, FieldId::ContractCode);
    lemma_take_once(e1, FieldId::Side);
}

} // verus!
