//! Perpetual-futures parser with stop-loss / take-profit direction integrity.
//!
//! `leverage` is a positive integer; exactly one `stopLoss`; one to three
//! take-profits, given either as separate `tp1|tp2|tp3` fields numbered without
//! gaps, or as one `takeProfit` field carrying `v1/v2/v3`.
//!
//! Direction rules (the only ordering constraint):
//! - LONG:  stopLoss < entryLo; every take-profit > entryLo.
//! - SHORT: stopLoss > entryHi; every take-profit < entryHi.

use vstd::prelude::*;
use crate::text::{chars_of, lemma_split_none, lemma_split_prefix, split_chars, split_on, string_from_chars, trim, trim_chars, views};
use crate::trade_signal::error::ParseError;
use crate::trade_signal::fields::{
    drop_id, opt_str_view, parse_decimal, parse_direction, parse_leverage, parse_margin_mode,
    parse_range, require_val, less_than, greater_than, spec_less_than,
    lemma_parse_range_ordered,
    spec_parse_decimal, spec_parse_direction, spec_parse_leverage, spec_parse_margin_mode,
    spec_parse_range, take_val, FieldId, FieldMap, ids_unique, lemma_take_once,
};
use crate::trade_signal::{strings_view, Direction, MarginMode, PerpParams, PerpParamsV};

verus! {

/// The take-profit prices of the combined `v1/v2/v3` form, left to right; an
/// empty part → `DirectionConstraint`, a malformed price → its number error.
pub open spec fn spec_combined_tps(parts: Seq<Seq<char>>) -> Result<Seq<Seq<char>>, ParseError>
    decreases parts.len(),
{
    if parts.len() == 0 {
        Ok(Seq::empty())
    } else {
        match spec_combined_tps(parts.drop_last()) {
            Err(e) => Err(e),
            Ok(acc) => {
                let t = trim(parts.last());
                if t.len() == 0 {
                    Err(ParseError::DirectionConstraint)
                } else {
                    match spec_parse_decimal(t) {
                        Err(e) => Err(e),
                        Ok(x) => Ok(acc.push(x)),
                    }
                }
            },
        }
    }
}

/// The take-profit prices present among the separate fields, in order.
pub open spec fn spec_separate_tps(t1: Option<Seq<char>>, t2: Option<Seq<char>>, t3: Option<Seq<char>>) -> Result<Seq<Seq<char>>, ParseError> {
    let present = seq![t1, t2, t3].filter(|t: Option<Seq<char>>| t is Some);
    let valid = (t1 is Some && t2 is None && t3 is None) || (t1 is Some && t2 is Some && t3 is None)
        || (t1 is Some && t2 is Some && t3 is Some);
    if !valid {
        Err(ParseError::DirectionConstraint)
    } else {
        match spec_parse_decimal(t1->0) {
            Err(e) => Err(e),
            Ok(a) => if t2 is None {
                Ok(seq![a])
            } else {
                match spec_parse_decimal(t2->0) {
                    Err(e) => Err(e),
                    Ok(b) => if t3 is None {
                        Ok(seq![a, b])
                    } else {
                        match spec_parse_decimal(t3->0) {
                            Err(e) => Err(e),
                            Ok(c) => Ok(seq![a, b, c]),
                        }
                    },
                }
            },
        }
    }
}

/// The take-profit prices from whichever form was used. The two forms are
/// mutually exclusive; one to three prices.
pub open spec fn spec_collect_tp(
    combined: Option<Seq<char>>,
    t1: Option<Seq<char>>,
    t2: Option<Seq<char>>,
    t3: Option<Seq<char>>,
) -> Result<Seq<Seq<char>>, ParseError> {
    match combined {
        Some(c) => if t1 is Some || t2 is Some || t3 is Some {
            Err(ParseError::DirectionConstraint)
        } else {
            match spec_combined_tps(split_on(c, '/')) {
                Err(e) => Err(e),
                Ok(v) => if v.len() == 0 || v.len() > 3 {
                    Err(ParseError::DirectionConstraint)
                } else {
                    Ok(v)
                },
            }
        },
        None => spec_separate_tps(t1, t2, t3),
    }
}

pub open spec fn tps_result_view(r: Result<Vec<String>, ParseError>) -> Result<Seq<Seq<char>>, ParseError> {
    match r {
        Ok(v) => Ok(strings_view(v@)),
        Err(e) => Err(e),
    }
}

proof fn lemma_combined_err_sticky(ps: Seq<Seq<char>>, i: int)
    requires
        0 <= i <= ps.len(),
        spec_combined_tps(ps.take(i)) is Err,
    ensures
        spec_combined_tps(ps) == spec_combined_tps(ps.take(i)),
    decreases ps.len() - i,
{
    if i < ps.len() {
        assert(ps.take(i + 1).drop_last() =~= ps.take(i));
        lemma_combined_err_sticky(ps, i + 1);
    } else {
        assert(ps.take(i) =~= ps);
    }
}

/// Collects the take-profit prices from whichever form was used.
pub fn collect_take_profit(
    tp_combined: Option<String>,
    tp1: Option<String>,
    tp2: Option<String>,
    tp3: Option<String>,
) -> (r: Result<Vec<String>, ParseError>)
    ensures
        tps_result_view(r) == spec_collect_tp(
            opt_str_view(tp_combined),
            opt_str_view(tp1),
            opt_str_view(tp2),
            opt_str_view(tp3),
        ),
{
    let has_separate = tp1.is_some() || tp2.is_some() || tp3.is_some();
    match tp_combined {
        Some(combined) => {
            if has_separate {
                return Err(ParseError::DirectionConstraint);
            }
            let cv = chars_of(combined.as_str());
            let parts = split_chars(cv.as_slice(), '/');
            let ghost ps = views(parts@);
            let mut out: Vec<String> = Vec::new();
            let mut i: usize = 0;
            assert(ps.take(0) =~= Seq::<Seq<char>>::empty());
            assert(strings_view(out@) =~= Seq::<Seq<char>>::empty());
            while i < parts.len()
                invariant
                    i <= parts@.len(),
                    tp_combined == Some(combined),
                    tp1 is None && tp2 is None && tp3 is None,
                    ps == views(parts@),
                    ps == split_on(combined@, '/'),
                    spec_combined_tps(ps.take(i as int)) == Ok::<Seq<Seq<char>>, ParseError>(
                        strings_view(out@),
                    ),
                decreases parts@.len() - i,
            {
                assert(ps.take(i + 1).drop_last() =~= ps.take(i as int));
                assert(ps.take(i + 1).last() == parts@[i as int]@);
                let t = trim_chars(parts[i].as_slice());
                if t.len() == 0 {
                    proof {
                        lemma_combined_err_sticky(ps, i + 1);
                    }
                    return Err(ParseError::DirectionConstraint);
                }
                let ts = string_from_chars(t.as_slice());
                match parse_decimal(ts.as_str()) {
                    Err(e) => {
                        proof {
                            lemma_combined_err_sticky(ps, i + 1);
                        }
                        return Err(e);
                    },
                    Ok(x) => {
                        let ghost before = out@;
                        out.push(x);
                        assert(strings_view(out@) =~= strings_view(before).push(x@));
                    },
                }
                i = i + 1;
            }
            assert(ps.take(parts@.len() as int) =~= ps);
            if out.len() == 0 || out.len() > 3 {
                return Err(ParseError::DirectionConstraint);
            }
            Ok(out)
        },
        None => {
            let valid = (tp1.is_some() && tp2.is_none() && tp3.is_none()) || (tp1.is_some()
                && tp2.is_some() && tp3.is_none()) || (tp1.is_some() && tp2.is_some()
                && tp3.is_some());
            if !valid {
                return Err(ParseError::DirectionConstraint);
            }
            let mut out: Vec<String> = Vec::new();
            match tp1 {
                Some(v) => out.push(parse_decimal(v.as_str())?),
                None => {},
            }
            match tp2 {
                Some(v) => out.push(parse_decimal(v.as_str())?),
                None => {},
            }
            match tp3 {
                Some(v) => out.push(parse_decimal(v.as_str())?),
                None => {},
            }
            assert(strings_view(out@) =~= match spec_separate_tps(
                opt_str_view(tp1),
                opt_str_view(tp2),
                opt_str_view(tp3),
            ) {
                Ok(v) => v,
                Err(_) => strings_view(out@),
            });
            Ok(out)
        },
    }
}

/// Stop-loss and every take-profit on the correct side of the entry range.
pub open spec fn spec_check_direction(
    direction: Direction,
    lo: Seq<char>,
    hi: Seq<char>,
    stop_loss: Seq<char>,
    tps: Seq<Seq<char>>,
) -> Result<(), ParseError> {
    match direction {
        Direction::Long => if !spec_less_than(stop_loss, lo) {
            Err(ParseError::DirectionConstraint)
        } else if exists|i: int| 0 <= i < tps.len() && !spec_less_than(lo, #[trigger] tps[i]) {
            Err(ParseError::DirectionConstraint)
        } else {
            Ok(())
        },
        Direction::Short => if !spec_less_than(hi, stop_loss) {
            Err(ParseError::DirectionConstraint)
        } else if exists|i: int| 0 <= i < tps.len() && !spec_less_than(#[trigger] tps[i], hi) {
            Err(ParseError::DirectionConstraint)
        } else {
            Ok(())
        },
    }
}

/// Stop-loss / take-profit direction integrity: the correct side of the entry
/// range, with no ordering constraint among the take-profits.
pub fn check_direction(
    direction: Direction,
    entry_lo: &str,
    entry_hi: &str,
    stop_loss: &str,
    tps: &[String],
) -> (r: Result<(), ParseError>)
    ensures
        r == spec_check_direction(direction, entry_lo@, entry_hi@, stop_loss@, strings_view(tps@)),
{
    let ghost tv = strings_view(tps@);
    match direction {
        Direction::Long => {
            if !less_than(stop_loss, entry_lo) {
                return Err(ParseError::DirectionConstraint);
            }
            let mut i: usize = 0;
            while i < tps.len()
                invariant
                    i <= tps@.len(),
                    tv == strings_view(tps@),
                    direction == Direction::Long,
                    spec_less_than(stop_loss@, entry_lo@),
                    forall|j: int| 0 <= j < i ==> spec_less_than(entry_lo@, #[trigger] tv[j]),
                decreases tps@.len() - i,
            {
                if !greater_than(tps[i].as_str(), entry_lo) {
                    assert(!spec_less_than(entry_lo@, tv[i as int]));
                    return Err(ParseError::DirectionConstraint);
                }
                i = i + 1;
            }
        },
        Direction::Short => {
            if !greater_than(stop_loss, entry_hi) {
                return Err(ParseError::DirectionConstraint);
            }
            let mut i: usize = 0;
            while i < tps.len()
                invariant
                    i <= tps@.len(),
                    tv == strings_view(tps@),
                    direction == Direction::Short,
                    spec_less_than(entry_hi@, stop_loss@),
                    forall|j: int| 0 <= j < i ==> spec_less_than(#[trigger] tv[j], entry_hi@),
                decreases tps@.len() - i,
            {
                if !less_than(tps[i].as_str(), entry_hi) {
                    assert(!spec_less_than(tv[i as int], entry_hi@));
                    return Err(ParseError::DirectionConstraint);
                }
                i = i + 1;
            }
        },
    }
    Ok(())
}

/// The perp parameters read from the entries, and the entries left over.
pub open spec fn spec_perp(e: Seq<(FieldId, Seq<char>)>) -> (Result<PerpParamsV, ParseError>, Seq<(FieldId, Seq<char>)>) {
    let e1 = drop_id(e, FieldId::Pair);
    match require_val(e, FieldId::Pair) {
        Err(x) => (Err(x), e1),
        Ok(pair) => {
            let e2 = drop_id(e1, FieldId::Direction);
            match require_val(e1, FieldId::Direction) {
                Err(x) => (Err(x), e2),
                Ok(dv) => match spec_parse_direction(dv) {
                    Err(x) => (Err(x), e2),
                    Ok(direction) => {
                        let e3 = drop_id(e2, FieldId::Leverage);
                        match require_val(e2, FieldId::Leverage) {
                            Err(x) => (Err(x), e3),
                            Ok(lv) => match spec_parse_leverage(lv) {
                                Err(x) => (Err(x), e3),
                                Ok(leverage) => {
                                    let e4 = drop_id(e3, FieldId::Entry);
                                    match require_val(e3, FieldId::Entry) {
                                        Err(x) => (Err(x), e4),
                                        Ok(ev) => match spec_parse_range(ev) {
                                            Err(x) => (Err(x), e4),
                                            Ok(entry_range) => {
                                                let e5 = drop_id(e4, FieldId::StopLoss);
                                                match require_val(e4, FieldId::StopLoss) {
                                                    Err(x) => (Err(x), e5),
                                                    Ok(sv) => match spec_parse_decimal(sv) {
                                                        Err(x) => (Err(x), e5),
                                                        Ok(stop_loss) => {
                                                            let c = take_val(e5, FieldId::Tp);
                                                            let e6 = drop_id(e5, FieldId::Tp);
                                                            let t1 = take_val(e6, FieldId::Tp1);
                                                            let e7 = drop_id(e6, FieldId::Tp1);
                                                            let t2 = take_val(e7, FieldId::Tp2);
                                                            let e8 = drop_id(e7, FieldId::Tp2);
                                                            let t3 = take_val(e8, FieldId::Tp3);
                                                            let e9 = drop_id(e8, FieldId::Tp3);
                                                            match spec_collect_tp(c, t1, t2, t3) {
                                                                Err(x) => (Err(x), e9),
                                                                Ok(take_profit) => {
                                                                    let e10 = drop_id(e9, FieldId::MarginMode);
                                                                    let mm = match take_val(e9, FieldId::MarginMode) {
                                                                        None => Ok(None),
                                                                        Some(v) => match spec_parse_margin_mode(v) {
                                                                            Ok(m) => Ok(Some(m)),
                                                                            Err(x) => Err(x),
                                                                        },
                                                                    };
                                                                    match mm {
                                                                        Err(x) => (Err(x), e10),
                                                                        Ok(margin_mode) => match spec_check_direction(
                                                                            direction,
                                                                            entry_range.0,
                                                                            entry_range.1,
                                                                            stop_loss,
                                                                            take_profit,
                                                                        ) {
                                                                            Err(x) => (Err(x), e10),
                                                                            Ok(_) => (
                                                                                Ok(
                                                                                    PerpParamsV {
                                                                                        pair,
                                                                                        direction,
                                                                                        leverage,
                                                                                        entry_range,
                                                                                        stop_loss,
                                                                                        take_profit,
                                                                                        margin_mode,
                                                                                    },
                                                                                ),
                                                                                e10,
                                                                            ),
                                                                        },
                                                                    }
                                                                },
                                                            }
                                                        },
                                                    },
                                                }
                                            },
                                        },
                                    }
                                },
                            },
                        }
                    },
                },
            }
        },
    }
}

pub open spec fn perp_result_view(r: Result<PerpParams, ParseError>) -> Result<PerpParamsV, ParseError> {
    match r {
        Ok(p) => Ok(p@),
        Err(e) => Err(e),
    }
}

/// Reads the perp parameters from the field map.
pub fn parse(fm: &mut FieldMap) -> (r: Result<PerpParams, ParseError>)
    ensures
        perp_result_view(r) == spec_perp(old(fm)@).0,
        final(fm)@ == spec_perp(old(fm)@).1,
{
    let pair = fm.require(FieldId::Pair)?;
    let direction = parse_direction(fm.require(FieldId::Direction)?.as_str())?;
    let leverage = parse_leverage(fm.require(FieldId::Leverage)?.as_str())?;
    let entry_range = parse_range(fm.require(FieldId::Entry)?.as_str())?;
    let stop_loss = parse_decimal(fm.require(FieldId::StopLoss)?.as_str())?;
    let tp_combined = fm.take(FieldId::Tp);
    let tp1 = fm.take(FieldId::Tp1);
    let tp2 = fm.take(FieldId::Tp2);
    let tp3 = fm.take(FieldId::Tp3);
    let take_profit = collect_take_profit(tp_combined, tp1, tp2, tp3)?;
    let margin_mode = match fm.take(FieldId::MarginMode) {
        Some(v) => Some(parse_margin_mode(v.as_str())?),
        None => None,
    };
    check_direction(
        direction,
        entry_range.lo.as_str(),
        entry_range.hi.as_str(),
        stop_loss.as_str(),
        take_profit.as_slice(),
    )?;
    Ok(PerpParams { pair, direction, leverage, entry_range, stop_loss, take_profit, margin_mode })
}

/// What a parsed perp keeps: one to three take-profits, a leverage of at
/// least 1, an ordered entry range, and the stop-loss and every take-profit
/// on the correct side of the entry range for its direction.
pub open spec fn perp_sides_ok(p: PerpParamsV) -> bool {
    &&& 1 <= p.take_profit.len() <= 3
    &&& p.leverage >= 1
    &&& spec_less_than(p.entry_range.0, p.entry_range.1)
    &&& match p.direction {
        Direction::Long => spec_less_than(p.stop_loss, p.entry_range.0) && forall|i: int|
            0 <= i < p.take_profit.len() ==> spec_less_than(p.entry_range.0, #[trigger] p.take_profit[i]),
        Direction::Short => spec_less_than(p.entry_range.1, p.stop_loss) && forall|i: int|
            0 <= i < p.take_profit.len() ==> spec_less_than(#[trigger] p.take_profit[i], p.entry_range.1),
    }
}

/// Every perp that parses keeps [`perp_sides_ok`].
pub proof fn lemma_perp_sides(e: Seq<(FieldId, Seq<char>)>)
    ensures
        spec_perp(e).0 matches Ok(p) ==> perp_sides_ok(p),
{
    let e4 = drop_id(drop_id(drop_id(e, FieldId::Pair), FieldId::Direction), FieldId::Leverage);
    match take_val(e4, FieldId::Entry) {
        Some(ev) => lemma_parse_range_ordered(ev),
        None => {},
    }
}

/// A price as written in a take-profit field: not blank, no surrounding
/// blanks, no `/`.
pub open spec fn bare_price(p: Seq<char>) -> bool {
    p.len() > 0 && trim(p) == p && !p.contains('/')
}

/// The two take-profit forms agree: `a/b/c` in the combined field gives what
/// separate `tp1:a`, `tp2:b`, `tp3:c` give (the same prices, or the same
/// error), and likewise for one or two prices.
pub proof fn lemma_tp_forms_agree(a: Seq<char>, b: Seq<char>, c: Seq<char>)
    requires
        bare_price(a),
        bare_price(b),
        bare_price(c),
    ensures
        spec_collect_tp(Some(a), None, None, None) == spec_collect_tp(None, Some(a), None, None),
        spec_collect_tp(Some(a + seq!['/'] + b), None, None, None) == spec_collect_tp(None, Some(a), Some(b), None),
        spec_collect_tp(Some(a + seq!['/'] + b + seq!['/'] + c), None, None, None)
            == spec_collect_tp(None, Some(a), Some(b), Some(c)),
{
    lemma_split_none(a, '/');
    lemma_split_none(b, '/');
    lemma_split_none(c, '/');
    lemma_split_prefix(a, b, '/');
    lemma_split_prefix(b, c, '/');
    assert(a + seq!['/'] + b + seq!['/'] + c =~= a + seq!['/'] + (b + seq!['/'] + c));
    lemma_split_prefix(a, b + seq!['/'] + c, '/');
    let p1 = seq![a];
    let p2 = seq![a, b];
    let p3 = seq![a, b, c];
    assert(seq![a] + split_on(b, '/') =~= p2);
    assert(seq![a] + (seq![b] + split_on(c, '/')) =~= p3);
    assert(p1.drop_last() =~= Seq::<Seq<char>>::empty());
    assert(p2.drop_last() =~= p1);
    assert(p3.drop_last() =~= p2);
    assert(spec_combined_tps(Seq::<Seq<char>>::empty()) == Ok::<Seq<Seq<char>>, ParseError>(Seq::empty()));
    assert(Seq::<Seq<char>>::empty().push(a) =~= seq![a]);
    let r1 = spec_combined_tps(p1);
    let r2 = spec_combined_tps(p2);
    let r3 = spec_combined_tps(p3);
    if let Ok(x) = spec_parse_decimal(a) {
        assert(r1 == Ok::<Seq<Seq<char>>, ParseError>(seq![x]));
        if let Ok(y) = spec_parse_decimal(b) {
            assert(seq![x].push(y) =~= seq![x, y]);
            assert(r2 == Ok::<Seq<Seq<char>>, ParseError>(seq![x, y]));
            if let Ok(z) = spec_parse_decimal(c) {
                assert(seq![x, y].push(z) =~= seq![x, y, z]);
                assert(r3 == Ok::<Seq<Seq<char>>, ParseError>(seq![x, y, z]));
            }
        }
    }
}


/// A perp that parses says what its fields say: its pair is that field's
/// text, its direction is `Long` exactly when the direction field reads
/// `LONG` and `Short` exactly when it reads `SHORT`, and its margin mode is
/// absent exactly when no margin-mode field is given, `Cross` exactly when
/// it reads `cross` and `Isolated` exactly when it reads `isolated`.
pub proof fn lemma_perp_fields(e: Seq<(FieldId, Seq<char>)>)
    requires
        ids_unique(e),
    ensures
        spec_perp(e).0 matches Ok(p) ==> {
            &&& take_val(e, FieldId::Pair) == Some(p.pair)
            &&& (p.direction == Direction::Long <==> take_val(e, FieldId::Direction) == Some("LONG"@))
            &&& (p.direction == Direction::Short <==> take_val(e, FieldId::Direction) == Some("SHORT"@))
            &&& (p.margin_mode is None <==> take_val(e, FieldId::MarginMode) is None)
            &&& (p.margin_mode == Some(MarginMode::Cross) <==> take_val(e, FieldId::MarginMode) == Some("cross"@))
            &&& (p.margin_mode == Some(MarginMode::Isolated) <==> take_val(e, FieldId::MarginMode) == Some(
                "isolated"@,
            ))
        },
{
    reveal_strlit("LONG");
    reveal_strlit("SHORT");
    reveal_strlit("cross");
    reveal_strlit("isolated");
    assert("LONG"@ != "SHORT"@) by {
        assert("LONG"@.len() != "SHORT"@.len());
    }
    assert("cross"@ != "isolated"@) by {
        assert("cross"@.len() != "isolated"@.len());
    }
    let e1 = drop_id(e, FieldId::Pair);
    let e2 = drop_id(e1, FieldId::Direction);
    let e3 = drop_id(e2, FieldId::Leverage);
    let e4 = drop_id(e3, FieldId::Entry);
    let e5 = drop_id(e4, FieldId::StopLoss);
    let e6 = drop_id(e5, FieldId::Tp);
    let e7 = drop_id(e6, FieldId::Tp1);
    let e8 = drop_id(e7, FieldId::Tp2);
    lemma_take_once(e, FieldId::Pair);
    lemma_take_once(e1, FieldId::Direction);
    lemma_take_once(e2, FieldId::Leverage);
    lemma_take_once(e3, FieldId::Entry);
    lemma_take_once(e4, FieldId::StopLoss);
    lemma_take_once(e5, FieldId::Tp);
    lemma_take_once(e6, FieldId::Tp1);
    lemma_take_once(e7, FieldId::Tp2);
    lemma_take_once(e8, FieldId::Tp3);
}

} // verus!
