//! Trade-signal text parser: header → field split → label → id mapping with a
//! same-language check → fixed field order → per-class parameters.

pub mod envelope;
pub mod error;
pub mod fields;
pub mod format;
pub mod header;
pub mod params;

use vstd::prelude::*;
use crate::asset_class::AssetClass;
pub use crate::text::strings_view;
use crate::text::{chars_of, has_char};
use self::error::ParseError;
use self::fields::{
    drop_id, has_emoji, has_link, has_link_or_emoji, id_pos, all_ids, field_id, parse_position,
    parse_ttl, require_val, spec_build, spec_field_id, spec_parse_position, spec_parse_ttl,
    spec_rank, spec_split_fields, split_fields, pairs_view, FieldId, FieldMap,
    lemma_position_bounded, pos_min, pos_max, dv_one, spec_less_than, take_val,
};
use self::header::{parse_title, spec_match, title_headers};
use self::params::{dispatch, spec_dispatch};
use self::params::perp::{lemma_perp_sides, perp_sides_ok};
use self::params::spot::{lemma_spot_form, slippage_cap};
use self::params::prediction::lemma_prediction_odds;
use self::params::option::spec_check_contract;
use self::format::{spec_detect_format, InputFormat};
use self::header::lemma_header_opens_input;
use crate::decimal::{dec_parts, dv_le, is_decimal};

verus! {

/// Label language of a signal.
#[derive(Debug, Clone, Copy, PartialEq, Eq, Structural)]
pub enum Language {
    Zh,
    En,
}

#[derive(Debug, Clone, Copy, PartialEq, Eq, Structural)]
pub enum Side {
    Buy,
    Sell,
}

#[derive(Debug, Clone, Copy, PartialEq, Eq, Structural)]
pub enum Direction {
    Long,
    Short,
}

#[derive(Debug, Clone, Copy, PartialEq, Eq, Structural)]
pub enum MarginMode {
    Cross,
    Isolated,
}

#[derive(Debug, Clone, Copy, PartialEq, Eq, Structural)]
pub enum OptionType {
    Call,
    Put,
}

#[derive(Debug, Clone, Copy, PartialEq, Eq, Structural)]
pub enum OrderType {
    Market,
    Limit,
}

#[derive(Debug, Clone, Copy, PartialEq, Eq, Structural)]
pub enum Outcome {
    Yes,
    No,
    Up,
    Down,
}

/// What executing a DeFi signal means; always a deposit.
#[derive(Debug, Clone, Copy, PartialEq, Eq, Structural)]
pub enum ExecutionSemantics {
    Deposit,
}

/// The view of an optional string.
pub open spec fn opt_view(o: Option<String>) -> Option<Seq<char>> {
    match o {
        Some(s) => Some(s@),
        None => None,
    }
}

/// An absolute price range with `lo < hi`, both in canonical plain form.
#[derive(Debug, Clone, PartialEq, Eq)]
pub struct PriceRange {
    pub lo: String,
    pub hi: String,
}

impl View for PriceRange {
    type V = (Seq<char>, Seq<char>);

    open spec fn view(&self) -> (Seq<char>, Seq<char>) {
        (self.lo@, self.hi@)
    }
}

#[derive(Debug, Clone, PartialEq, Eq)]
pub struct SpotParams {
    pub market: String,
    pub symbol: String,
    pub side: Side,
    pub price_range: PriceRange,
    pub order_type: OrderType,
    pub token_addr: Option<String>,
    pub slippage: Option<String>,
}

pub struct SpotParamsV {
    pub market: Seq<char>,
    pub symbol: Seq<char>,
    pub side: Side,
    pub price_range: (Seq<char>, Seq<char>),
    pub order_type: OrderType,
    pub token_addr: Option<Seq<char>>,
    pub slippage: Option<Seq<char>>,
}

impl View for SpotParams {
    type V = SpotParamsV;

    open spec fn view(&self) -> SpotParamsV {
        SpotParamsV {
            market: self.market@,
            symbol: self.symbol@,
            side: self.side,
            price_range: self.price_range@,
            order_type: self.order_type,
            token_addr: opt_view(self.token_addr),
            slippage: opt_view(self.slippage),
        }
    }
}

#[derive(Debug, Clone, PartialEq, Eq)]
pub struct PerpParams {
    pub pair: String,
    pub direction: Direction,
    pub leverage: u32,
    pub entry_range: PriceRange,
    pub stop_loss: String,
    pub take_profit: Vec<String>,
    pub margin_mode: Option<MarginMode>,
}

pub struct PerpParamsV {
    pub pair: Seq<char>,
    pub direction: Direction,
    pub leverage: u32,
    pub entry_range: (Seq<char>, Seq<char>),
    pub stop_loss: Seq<char>,
    pub take_profit: Seq<Seq<char>>,
    pub margin_mode: Option<MarginMode>,
}

impl View for PerpParams {
    type V = PerpParamsV;

    open spec fn view(&self) -> PerpParamsV {
        PerpParamsV {
            pair: self.pair@,
            direction: self.direction,
            leverage: self.leverage,
            entry_range: self.entry_range@,
            stop_loss: self.stop_loss@,
            take_profit: strings_view(self.take_profit@),
            margin_mode: self.margin_mode,
        }
    }
}

#[derive(Debug, Clone, PartialEq, Eq)]
pub struct PredictionParams {
    pub event: String,
    pub outcome: Outcome,
    pub odds: String,
    pub settle_date: String,
}

pub struct PredictionParamsV {
    pub event: Seq<char>,
    pub outcome: Outcome,
    pub odds: Seq<char>,
    pub settle_date: Seq<char>,
}

impl View for PredictionParams {
    type V = PredictionParamsV;

    open spec fn view(&self) -> PredictionParamsV {
        PredictionParamsV {
            event: self.event@,
            outcome: self.outcome,
            odds: self.odds@,
            settle_date: self.settle_date@,
        }
    }
}

#[derive(Debug, Clone, PartialEq, Eq)]
pub struct OptionParams {
    pub contract_code: String,
    pub side: Side,
    pub option_type: OptionType,
    pub strike: String,
    pub expiry: String,
    pub premium_cap: String,
}

pub struct OptionParamsV {
    pub contract_code: Seq<char>,
    pub side: Side,
    pub option_type: OptionType,
    pub strike: Seq<char>,
    pub expiry: Seq<char>,
    pub premium_cap: Seq<char>,
}

impl View for OptionParams {
    type V = OptionParamsV;

    open spec fn view(&self) -> OptionParamsV {
        OptionParamsV {
            contract_code: self.contract_code@,
            side: self.side,
            option_type: self.option_type,
            strike: self.strike@,
            expiry: self.expiry@,
            premium_cap: self.premium_cap@,
        }
    }
}

#[derive(Debug, Clone, PartialEq, Eq)]
pub struct DefiParams {
    pub chain: String,
    pub protocol_pool: String,
    pub apy: String,
    pub tvl: String,
    pub token: String,
    pub redeem_terms: String,
    pub execution_semantics: ExecutionSemantics,
}

pub struct DefiParamsV {
    pub chain: Seq<char>,
    pub protocol_pool: Seq<char>,
    pub apy: Seq<char>,
    pub tvl: Seq<char>,
    pub token: Seq<char>,
    pub redeem_terms: Seq<char>,
    pub execution_semantics: ExecutionSemantics,
}

impl View for DefiParams {
    type V = DefiParamsV;

    open spec fn view(&self) -> DefiParamsV {
        DefiParamsV {
            chain: self.chain@,
            protocol_pool: self.protocol_pool@,
            apy: self.apy@,
            tvl: self.tvl@,
            token: self.token@,
            redeem_terms: self.redeem_terms@,
            execution_semantics: self.execution_semantics,
        }
    }
}

/// The class-specific parameters, tagged by asset class.
#[derive(Debug, Clone, PartialEq, Eq)]
pub enum SignalParams {
    Spot(SpotParams),
    Perp(PerpParams),
    Prediction(PredictionParams),
    Option(OptionParams),
    Defi(DefiParams),
}

pub enum SignalParamsV {
    Spot(SpotParamsV),
    Perp(PerpParamsV),
    Prediction(PredictionParamsV),
    Option(OptionParamsV),
    Defi(DefiParamsV),
}

impl View for SignalParams {
    type V = SignalParamsV;

    open spec fn view(&self) -> SignalParamsV {
        match self {
            SignalParams::Spot(p) => SignalParamsV::Spot(p@),
            SignalParams::Perp(p) => SignalParamsV::Perp(p@),
            SignalParams::Prediction(p) => SignalParamsV::Prediction(p@),
            SignalParams::Option(p) => SignalParamsV::Option(p@),
            SignalParams::Defi(p) => SignalParamsV::Defi(p@),
        }
    }
}

/// The asset class a parameter variant belongs to.
pub open spec fn params_class(p: SignalParamsV) -> AssetClass {
    match p {
        SignalParamsV::Spot(_) => AssetClass::Spot,
        SignalParamsV::Perp(_) => AssetClass::Perp,
        SignalParamsV::Prediction(_) => AssetClass::Prediction,
        SignalParamsV::Option(_) => AssetClass::Option,
        SignalParamsV::Defi(_) => AssetClass::Defi,
    }
}

/// A fully validated signal.
#[derive(Debug, Clone, PartialEq, Eq)]
pub struct ParsedSignal {
    pub asset_class: AssetClass,
    pub params: SignalParams,
    /// Plain decimal percent in `0.1 ..= 20`, without `%`.
    pub position_pct: String,
    /// Time to live in seconds, in `300 ..= 604800`.
    pub ttl_sec: u64,
}

pub struct ParsedSignalV {
    pub asset_class: AssetClass,
    pub params: SignalParamsV,
    pub position_pct: Seq<char>,
    pub ttl_sec: u64,
}

impl View for ParsedSignal {
    type V = ParsedSignalV;

    open spec fn view(&self) -> ParsedSignalV {
        ParsedSignalV {
            asset_class: self.asset_class,
            params: self.params@,
            position_pct: self.position_pct@,
            ttl_sec: self.ttl_sec,
        }
    }
}

/// The longest accepted signal text, in characters.
pub const MAX_SIGNAL_CHARS: usize = 200;

/// Whether a field's value may hold an `@`: only the prediction outcome
/// (`<OUTCOME> @<odds>`).
pub open spec fn at_allowed(class: AssetClass, id: FieldId) -> bool {
    class == AssetClass::Prediction && id == FieldId::Outcome
}

/// Checks the raw fields left to right and gives their ids: an unknown label
/// → `ForbiddenContent`, a label in the other language → `LanguageMix`, an
/// `@` outside the prediction outcome → `ForbiddenContent`, a field not after
/// the previous one in the class's fixed order (a repeat or a reordering) →
/// `FieldCountError`. The first failing field decides.
pub open spec fn spec_scan(class: AssetClass, lang: Language, raw: Seq<(Seq<char>, Seq<char>)>) -> Result<Seq<FieldId>, ParseError>
    decreases raw.len(),
{
    if raw.len() == 0 {
        Ok(Seq::empty())
    } else {
        match spec_scan(class, lang, raw.drop_last()) {
            Err(e) => Err(e),
            Ok(ids) => match spec_field_id(class, raw.last().0) {
                None => Err(ParseError::ForbiddenContent),
                Some((id, l)) => if l != lang {
                    Err(ParseError::LanguageMix)
                } else if raw.last().1.contains('@') && !at_allowed(class, id) {
                    Err(ParseError::ForbiddenContent)
                } else if ids.len() > 0 && spec_rank(class, id) <= spec_rank(class, ids.last()) {
                    Err(ParseError::FieldCountError)
                } else {
                    Ok(ids.push(id))
                },
            },
        }
    }
}

proof fn lemma_scan_err_sticky(class: AssetClass, lang: Language, raw: Seq<(Seq<char>, Seq<char>)>, i: int)
    requires
        0 <= i <= raw.len(),
        spec_scan(class, lang, raw.take(i)) is Err,
    ensures
        spec_scan(class, lang, raw) == spec_scan(class, lang, raw.take(i)),
    decreases raw.len() - i,
{
    if i < raw.len() {
        assert(raw.take(i + 1).drop_last() =~= raw.take(i));
        lemma_scan_err_sticky(class, lang, raw, i + 1);
    } else {
        assert(raw.take(i) =~= raw);
    }
}

/// Checks the labels, the language, the `@` rule and the fixed field order.
fn check_fields(class: AssetClass, lang: Language, raw: &[(String, String)]) -> (r: Result<(), ParseError>)
    ensures
        r == (match spec_scan(class, lang, pairs_view(raw@)) {
            Ok(_) => Ok::<(), ParseError>(()),
            Err(e) => Err(e),
        }),
{
    let ghost rv = pairs_view(raw@);
    let order = all_ids(class);
    assert(order@.len() <= 12);
    let mut prev: i64 = -1;
    let mut i: usize = 0;
    assert(rv.take(0) =~= Seq::<(Seq<char>, Seq<char>)>::empty());
    while i < raw.len()
        invariant
            i <= raw@.len(),
            rv == pairs_view(raw@),
            order@ == fields::spec_all_ids(class),
            order@.len() <= 12,
            spec_scan(class, lang, rv.take(i as int)) matches Ok(ids) && ids.len() == i && (i > 0
                ==> prev == spec_rank(class, ids.last())),
        decreases raw@.len() - i,
    {
        assert(rv.take(i + 1).drop_last() =~= rv.take(i as int));
        assert(rv.take(i + 1).last() == rv[i as int]);
        assert(rv[i as int] == (raw@[i as int].0@, raw@[i as int].1@));
        let label = chars_of(raw[i].0.as_str());
        let (id, l) = match field_id(class, label.as_slice()) {
            None => {
                proof {
                    lemma_scan_err_sticky(class, lang, rv, i + 1);
                }
                return Err(ParseError::ForbiddenContent);
            },
            Some(x) => x,
        };
        if l != lang {
            proof {
                lemma_scan_err_sticky(class, lang, rv, i + 1);
            }
            return Err(ParseError::LanguageMix);
        }
        let value = chars_of(raw[i].1.as_str());
        if has_char(value.as_slice(), '@') && !(class == AssetClass::Prediction && id
            == FieldId::Outcome) {
            proof {
                lemma_scan_err_sticky(class, lang, rv, i + 1);
            }
            return Err(ParseError::ForbiddenContent);
        }
        let rank = id_pos(&order, id);
        if i > 0 && rank <= prev {
            proof {
                lemma_scan_err_sticky(class, lang, rv, i + 1);
            }
            return Err(ParseError::FieldCountError);
        }
        prev = rank;
        i = i + 1;
    }
    assert(rv.take(raw@.len() as int) =~= rv);
    Ok(())
}

/// The signal built from the checked entries: `position` and `ttl` first,
/// then the class parameters; a field left over → `FieldCountError`.
pub open spec fn spec_signal_from_entries(class: AssetClass, e: Seq<(FieldId, Seq<char>)>) -> Result<ParsedSignalV, ParseError> {
    match require_val(e, FieldId::Position) {
        Err(x) => Err(x),
        Ok(pv) => match spec_parse_position(pv) {
            Err(x) => Err(x),
            Ok(position_pct) => {
                let e1 = drop_id(e, FieldId::Position);
                match require_val(e1, FieldId::Ttl) {
                    Err(x) => Err(x),
                    Ok(tv) => match spec_parse_ttl(tv) {
                        Err(x) => Err(x),
                        Ok(ttl_sec) => {
                            let e2 = drop_id(e1, FieldId::Ttl);
                            match spec_dispatch(class, e2).0 {
                                Err(x) => Err(x),
                                Ok(params) => if spec_dispatch(class, e2).1.len() > 0 {
                                    Err(ParseError::FieldCountError)
                                } else {
                                    Ok(ParsedSignalV { asset_class: class, params, position_pct, ttl_sec })
                                },
                            }
                        },
                    },
                }
            },
        },
    }
}

/// What a signal text parses to. In order: empty → `EmptyInput`; more than
/// 200 characters → `TooLong`; a line break → `MultiLine`; no known title at
/// the very start → `UnknownHeader`; a link or an emoji after it →
/// `ForbiddenContent`; then the field split, the field checks, the field map,
/// and the values.
pub open spec fn spec_parse_signal_text(s: Seq<char>) -> Result<ParsedSignalV, ParseError> {
    if s.len() == 0 {
        Err(ParseError::EmptyInput)
    } else if s.len() > MAX_SIGNAL_CHARS {
        Err(ParseError::TooLong)
    } else if s.contains('\n') || s.contains('\r') {
        Err(ParseError::MultiLine)
    } else {
        match spec_match(title_headers(), s) {
            Err(e) => Err(e),
            Ok((class, lang, rest)) => if has_link(rest) || has_emoji(rest) {
                Err(ParseError::ForbiddenContent)
            } else {
                match spec_split_fields(rest) {
                    Err(e) => Err(e),
                    Ok(raw) => match spec_scan(class, lang, raw) {
                        Err(e) => Err(e),
                        Ok(_) => match spec_build(class, lang, raw) {
                            Err(e) => Err(e),
                            Ok(entries) => spec_signal_from_entries(class, entries),
                        },
                    },
                }
            },
        }
    }
}

pub open spec fn signal_result_view(r: Result<ParsedSignal, ParseError>) -> Result<ParsedSignalV, ParseError> {
    match r {
        Ok(p) => Ok(p@),
        Err(e) => Err(e),
    }
}

/// Parses a signal text: title, `|`-separated `label:value` fields in the
/// class's fixed order and in the title's language, and the values.
pub fn parse_signal_text(input: &str) -> (r: Result<ParsedSignal, ParseError>)
    ensures
        signal_result_view(r) == spec_parse_signal_text(input@),
{
    let v = chars_of(input);
    if v.len() == 0 {
        return Err(ParseError::EmptyInput);
    }
    if v.len() > MAX_SIGNAL_CHARS {
        return Err(ParseError::TooLong);
    }
    if has_char(v.as_slice(), '\n') || has_char(v.as_slice(), '\r') {
        return Err(ParseError::MultiLine);
    }
    let (class, lang, rest) = parse_title(input)?;
    let rv = chars_of(rest);
    if has_link_or_emoji(rv.as_slice()) {
        return Err(ParseError::ForbiddenContent);
    }
    let raw = split_fields(rest)?;
    check_fields(class, lang, raw.as_slice())?;
    let mut fm = FieldMap::build(class, lang, raw.as_slice())?;
    let position_pct = parse_position(fm.require(FieldId::Position)?.as_str())?;
    let ttl_sec = parse_ttl(fm.require(FieldId::Ttl)?.as_str())?;
    let params = dispatch(class, &mut fm)?;
    fm.ensure_consumed()?;
    Ok(ParsedSignal { asset_class: class, params, position_pct, ttl_sec })
}

/// A parsed signal's class is the class its title names, its parameters are
/// always those of that class, and it classifies as a text signal.
pub proof fn lemma_parsed_signal_class(s: Seq<char>)
    requires
        spec_parse_signal_text(s) is Ok,
    ensures
        ({
            let p = spec_parse_signal_text(s)->Ok_0;
            &&& spec_match(title_headers(), s) matches Ok((c, _, _)) && p.asset_class == c
            &&& params_class(p.params) == p.asset_class
            &&& spec_detect_format(s) == InputFormat::V2Text
        }),
{
    lemma_header_opens_input(s);
}

/// What every parsed signal keeps: a canonical position in `0.1 ..= 20`, a
/// TTL of 5 minutes to 7 days, and by class: an ordered spot price range with
/// both or neither of `tokenAddr` and `slippage` (at most 5%); a perp with
/// one to three take-profits and stop-loss and take-profits on the correct
/// side of its entry range; prediction odds of at most 1; an option contract
/// code that agrees with its fields; a DeFi deposit.
pub proof fn lemma_parsed_signal_invariants(s: Seq<char>)
    requires
        spec_parse_signal_text(s) is Ok,
    ensures
        ({
            let p = spec_parse_signal_text(s)->Ok_0;
            &&& is_decimal(p.position_pct)
            &&& dv_le(pos_min(), dec_parts(p.position_pct))
            &&& dv_le(dec_parts(p.position_pct), pos_max())
            &&& 300 <= p.ttl_sec <= 604800
            &&& (p.params matches SignalParamsV::Spot(sp) ==> spec_less_than(sp.price_range.0, sp.price_range.1)
                && (sp.token_addr is Some <==> sp.slippage is Some)
                && (sp.slippage matches Some(x) ==> dv_le(dec_parts(x), slippage_cap())))
            &&& (p.params matches SignalParamsV::Perp(pp) ==> perp_sides_ok(pp))
            &&& (p.params matches SignalParamsV::Prediction(pr) ==> dv_le(dec_parts(pr.odds), dv_one()))
            &&& (p.params matches SignalParamsV::Option(op) ==> spec_check_contract(
                op.contract_code,
                op.option_type,
                op.strike,
                op.expiry,
            ) is Ok)
            &&& (p.params matches SignalParamsV::Defi(d) ==> d.execution_semantics == ExecutionSemantics::Deposit)
        }),
{
    let (class, lang, rest) = spec_match(title_headers(), s)->Ok_0;
    let raw = spec_split_fields(rest)->Ok_0;
    let entries = spec_build(class, lang, raw)->Ok_0;
    lemma_position_bounded(take_val(entries, FieldId::Position)->0);
    let e2 = drop_id(drop_id(entries, FieldId::Position), FieldId::Ttl);
    lemma_spot_form(e2);
    lemma_perp_sides(e2);
    lemma_prediction_odds(e2);
}

} // verus!
