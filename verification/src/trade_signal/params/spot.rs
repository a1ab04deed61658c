//! Spot parser: the exchange-pair form and the on-chain-token form (which needs
//! both `tokenAddr` and `slippage`, slippage at most 5%). `orderType` defaults
//! to `market`; the price range needs `lo < hi`.

use vstd::prelude::*;
use crate::decimal::Decimal;
use crate::trade_signal::error::ParseError;
use crate::trade_signal::fields::{
    drop_id, opt_str_view, parse_order_type, parse_range, parse_side, percent_at_most,
    require_val, spec_parse_order_type, spec_parse_range, spec_parse_side, spec_percent_max_dv,
    take_val, FieldId, FieldMap, lemma_parse_range_ordered, lemma_percent_max_bounded,
    spec_less_than, ids_unique, lemma_take_once,
};
use crate::decimal::{dec_parts, dv_le};
use crate::trade_signal::{OrderType, Side, SpotParams, SpotParamsV};

verus! {

/// The slippage ceiling: 5 (percent).
pub open spec fn slippage_cap() -> (Seq<char>, Seq<char>) {
    (seq!['5'], Seq::empty())
}

/// The spot parameters read from the entries, and the entries left over.
pub open spec fn spec_spot(e: Seq<(FieldId, Seq<char>)>) -> (Result<SpotParamsV, ParseError>, Seq<(FieldId, Seq<char>)>) {
    let e1 = drop_id(e, FieldId::Market);
    match require_val(e, FieldId::Market) {
        Err(x) => (Err(x), e1),
        Ok(market) => {
            let e2 = drop_id(e1, FieldId::Symbol);
            match require_val(e1, FieldId::Symbol) {
                Err(x) => (Err(x), e2),
                Ok(symbol) => {
                    let e3 = drop_id(e2, FieldId::Side);
                    match require_val(e2, FieldId::Side) {
                        Err(x) => (Err(x), e3),
                        Ok(sv) => match spec_parse_side(sv) {
                            Err(x) => (Err(x), e3),
                            Ok(side) => {
                                let e4 = drop_id(e3, FieldId::Price);
                                match require_val(e3, FieldId::Price) {
                                    Err(x) => (Err(x), e4),
                                    Ok(pv) => match spec_parse_range(pv) {
                                        Err(x) => (Err(x), e4),
                                        Ok(price_range) => {
                                            let e5 = drop_id(e4, FieldId::OrderType);
                                            let ot = match take_val(e4, FieldId::OrderType) {
                                                None => Ok(OrderType::Market),
                                                Some(v) => spec_parse_order_type(v),
                                            };
                                            match ot {
                                                Err(x) => (Err(x), e5),
                                                Ok(order_type) => {
                                                    let token_addr = take_val(e5, FieldId::TokenAddr);
                                                    let e6 = drop_id(e5, FieldId::TokenAddr);
                                                    let e7 = drop_id(e6, FieldId::Slippage);
                                                    let slip = match take_val(e6, FieldId::Slippage) {
                                                        None => Ok(None),
                                                        Some(v) => match spec_percent_max_dv(v, slippage_cap()) {
                                                            Ok(x) => Ok(Some(x)),
                                                            Err(x) => Err(x),
                                                        },
                                                    };
                                                    match slip {
                                                        Err(x) => (Err(x), e7),
                                                        Ok(slippage) => if token_addr.is_some() != slippage.is_some() {
                                                            (Err(ParseError::FieldCountError), e7)
                                                        } else {
                                                            (
                                                                Ok(
                                                                    SpotParamsV {
                                                                        market,
                                                                        symbol,
                                                                        side,
                                                                        price_range,
                                                                        order_type,
                                                                        token_addr,
                                                                        slippage,
                                                                    },
                                                                ),
                                                                e7,
                                                            )
                                                        },
                                                    }
                                                },
                                            }
                                        },
                                    },
                                }
                            },
                        },
                    }
                },
            }
        },
    }
}

pub open spec fn spot_result_view(r: Result<SpotParams, ParseError>) -> Result<SpotParamsV, ParseError> {
    match r {
        Ok(p) => Ok(p@),
        Err(e) => Err(e),
    }
}

/// Reads the spot parameters from the field map.
pub fn parse(fm: &mut FieldMap) -> (r: Result<SpotParams, ParseError>)
    ensures
        spot_result_view(r) == spec_spot(old(fm)@).0,
        final(fm)@ == spec_spot(old(fm)@).1,
{
    let market = fm.require(FieldId::Market)?;
    let symbol = fm.require(FieldId::Symbol)?;
    let side = parse_side(fm.require(FieldId::Side)?.as_str())?;
    let price_range = parse_range(fm.require(FieldId::Price)?.as_str())?;
    let order_type = match fm.take(FieldId::OrderType) {
        Some(v) => parse_order_type(v.as_str())?,
        None => OrderType::Market,
    };
    let token_addr = fm.take(FieldId::TokenAddr);
    let mut five: Vec<char> = Vec::new();
    five.push('5');
    let cap = Decimal::from_digits(five, Vec::new());
    assert(cap@ =~= slippage_cap());
    let slippage = match fm.take(FieldId::Slippage) {
        Some(v) => Some(percent_at_most(v.as_str(), &cap)?),
        None => None,
    };
    if token_addr.is_some() != slippage.is_some() {
        return Err(ParseError::FieldCountError);
    }
    assert(opt_str_view(token_addr).is_some() == token_addr.is_some());
    Ok(SpotParams { market, symbol, side, price_range, order_type, token_addr, slippage })
}

/// Every spot that parses has an ordered price range, either both or neither
/// of `tokenAddr` and `slippage`, and a slippage of at most 5%.
pub proof fn lemma_spot_form(e: Seq<(FieldId, Seq<char>)>)
    ensures
        spec_spot(e).0 matches Ok(p) ==> spec_less_than(p.price_range.0, p.price_range.1)
            && (p.token_addr is Some <==> p.slippage is Some)
            && (p.slippage matches Some(x) ==> dv_le(dec_parts(x), slippage_cap())),
{
    let e3 = drop_id(drop_id(drop_id(e, FieldId::Market), FieldId::Symbol), FieldId::Side);
    match take_val(e3, FieldId::Price) {
        Some(pv) => lemma_parse_range_ordered(pv),
        None => {},
    }
    let e6 = drop_id(drop_id(drop_id(e3, FieldId::Price), FieldId::OrderType), FieldId::TokenAddr);
    match take_val(e6, FieldId::Slippage) {
        Some(v) => lemma_percent_max_bounded(v, slippage_cap()),
        None => {},
    }
}


/// A spot that parses says what its fields say: its market and symbol are
/// those fields' text, its side is `Buy` exactly when the side field reads
/// `BUY` and `Sell` exactly when it reads `SELL`, and its order type is
/// `Limit` exactly when an order-type field reads `limit` (`Market` when it
/// reads `market` or is absent).
pub proof fn lemma_spot_fields(e: Seq<(FieldId, Seq<char>)>)
    requires
        ids_unique(e),
    ensures
        spec_spot(e).0 matches Ok(p) ==> {
            &&& take_val(e, FieldId::Market) == Some(p.market)
            &&& take_val(e, FieldId::Symbol) == Some(p.symbol)
            &&& (p.side == Side::Buy <==> take_val(e, FieldId::Side) == Some("BUY"@))
            &&& (p.side == Side::Sell <==> take_val(e, FieldId::Side) == Some("SELL"@))
            &&& (p.order_type == OrderType::Limit <==> take_val(e, FieldId::OrderType) == Some("limit"@))
            &&& (p.order_type == OrderType::Market <==> (take_val(e, FieldId::OrderType) is None
                || take_val(e, FieldId::OrderType) == Some("market"@)))
        },
{
    reveal_strlit("BUY");
    reveal_strlit("SELL");
    reveal_strlit("limit");
    reveal_strlit("market");
    assert("SELL"@ != "BUY"@) by {
        assert("SELL"@.len() != "BUY"@.len());
    }
    assert("limit"@ != "market"@) by {
        assert("limit"@.len() != "market"@.len());
    }
    let e1 = drop_id(e, FieldId::Market);
    let e2 = drop_id(e1, FieldId::Symbol);
    let e3 = drop_id(e2, FieldId::Side);
    lemma_take_once(e, FieldId::Market);
    lemma_take_once(e1, FieldId::Symbol);
    lemma_take_once(e2, FieldId::Side);
    lemma_take_once(e3, FieldId::Price);
}

} // verus!
