//! Field splitting, label → id mapping with the same-language check, the
//! consume-once field map, and the shared value validators (position %, TTL,
//! exact decimal, price range, calendar date, keyword whitelists, forbidden
//! content scan).
//!
//! All numeric parsing and comparison goes through the exact [`Decimal`]: no
//! floating point.

use vstd::prelude::*;
use crate::asset_class::AssetClass;
use crate::decimal::{
    dec_parts, dv_le, dv_lt, dv_eq, is_decimal, plain_text, Decimal,
};
use crate::text::{
    all_digit_chars, all_digits, chars_of, chars_eq_str, contains_chars, contains_sub,
    digit_char, digits_val, has_char, parse_u64_digits, slice_of, split_chars, split_on, split_once, split_once_chars, string_from_chars,
    str_eq, strip_prefix, strip_prefix_chars, strip_suffix, strip_suffix_chars, trim, trim_chars,
    views,
};
use super::error::ParseError;
use super::{Direction, Language, MarginMode, OptionType, OrderType, Outcome, PriceRange, Side};

verus! {

/// Canonical field ids (stable within the parser; not a wire contract).
#[derive(Debug, Clone, Copy, PartialEq, Eq, Structural)]
pub enum FieldId {
    Position,
    Ttl,
    Market,
    Symbol,
    Side,
    Price,
    OrderType,
    TokenAddr,
    Slippage,
    Pair,
    Direction,
    Leverage,
    Entry,
    StopLoss,
    Tp,
    Tp1,
    Tp2,
    Tp3,
    MarginMode,
    Event,
    Outcome,
    Odds,
    SettleDate,
    ContractCode,
    OptionType,
    Strike,
    Expiry,
    PremiumCap,
    Chain,
    ProtocolPool,
    Apy,
    Tvl,
    Token,
    RedeemTerms,
}

/// The label of a field in a language.
pub open spec fn spec_label(id: FieldId, lang: Language) -> Seq<char> {
    match id {
        FieldId::Position => if lang == Language::Zh {
            "仓位"@
        } else {
            "position"@
        },
        FieldId::Ttl => if lang == Language::Zh {
            "有效期"@
        } else {
            "ttl"@
        },
        FieldId::Market => if lang == Language::Zh {
            "市场"@
        } else {
            "market"@
        },
        FieldId::Symbol => if lang == Language::Zh {
            "币种"@
        } else {
            "symbol"@
        },
        FieldId::Side => if lang == Language::Zh {
            "方向"@
        } else {
            "side"@
        },
        FieldId::Price => if lang == Language::Zh {
            "价格"@
        } else {
            "price"@
        },
        FieldId::OrderType => if lang == Language::Zh {
            "类型"@
        } else {
            "orderType"@
        },
        FieldId::TokenAddr => if lang == Language::Zh {
            "合约地址"@
        } else {
            "tokenAddr"@
        },
        FieldId::Slippage => if lang == Language::Zh {
            "滑点"@
        } else {
            "slippage"@
        },
        FieldId::Pair => if lang == Language::Zh {
            "交易对"@
        } else {
            "pair"@
        },
        FieldId::Direction => if lang == Language::Zh {
            "方向"@
        } else {
            "direction"@
        },
        FieldId::Leverage => if lang == Language::Zh {
            "杠杆"@
        } else {
            "leverage"@
        },
        FieldId::Entry => if lang == Language::Zh {
            "入场"@
        } else {
            "entry"@
        },
        FieldId::StopLoss => if lang == Language::Zh {
            "止损"@
        } else {
            "stopLoss"@
        },
        FieldId::Tp => if lang == Language::Zh {
            "止盈"@
        } else {
            "takeProfit"@
        },
        FieldId::Tp1 => if lang == Language::Zh {
            "止盈1"@
        } else {
            "tp1"@
        },
        FieldId::Tp2 => if lang == Language::Zh {
            "止盈2"@
        } else {
            "tp2"@
        },
        FieldId::Tp3 => if lang == Language::Zh {
            "止盈3"@
        } else {
            "tp3"@
        },
        FieldId::MarginMode => if lang == Language::Zh {
            "保证金"@
        } else {
            "marginMode"@
        },
        FieldId::Event => if lang == Language::Zh {
            "事件"@
        } else {
            "event"@
        },
        FieldId::Outcome => if lang == Language::Zh {
            "结果"@
        } else {
            "outcome"@
        },
        FieldId::Odds => if lang == Language::Zh {
            "赔率"@
        } else {
            "odds"@
        },
        FieldId::SettleDate => if lang == Language::Zh {
            "结算日"@
        } else {
            "settleDate"@
        },
        FieldId::ContractCode => if lang == Language::Zh {
            "合约代码"@
        } else {
            "contractCode"@
        },
        FieldId::OptionType => if lang == Language::Zh {
            "类型"@
        } else {
            "optionType"@
        },
        FieldId::Strike => if lang == Language::Zh {
            "行权价"@
        } else {
            "strike"@
        },
        FieldId::Expiry => if lang == Language::Zh {
            "到期日"@
        } else {
            "expiry"@
        },
        FieldId::PremiumCap => if lang == Language::Zh {
            "权利金上限"@
        } else {
            "premiumCap"@
        },
        FieldId::Chain => if lang == Language::Zh {
            "链"@
        } else {
            "chain"@
        },
        FieldId::ProtocolPool => if lang == Language::Zh {
            "协议"@
        } else {
            "protocolPool"@
        },
        FieldId::Apy => if lang == Language::Zh {
            "年化"@
        } else {
            "apy"@
        },
        FieldId::Tvl => if lang == Language::Zh {
            "锁仓"@
        } else {
            "tvl"@
        },
        FieldId::Token => if lang == Language::Zh {
            "币种"@
        } else {
            "token"@
        },
        FieldId::RedeemTerms => if lang == Language::Zh {
            "赎回"@
        } else {
            "redeemTerms"@
        },
    }
}

/// The canonical id string of a field.
pub open spec fn spec_id_str(id: FieldId) -> Seq<char> {
    match id {
        FieldId::Position => "position"@,
        FieldId::Ttl => "ttl"@,
        FieldId::Market => "market"@,
        FieldId::Symbol => "symbol"@,
        FieldId::Side => "side"@,
        FieldId::Price => "price"@,
        FieldId::OrderType => "orderType"@,
        FieldId::TokenAddr => "tokenAddr"@,
        FieldId::Slippage => "slippage"@,
        FieldId::Pair => "pair"@,
        FieldId::Direction => "direction"@,
        FieldId::Leverage => "leverage"@,
        FieldId::Entry => "entry"@,
        FieldId::StopLoss => "stopLoss"@,
        FieldId::Tp => "takeProfit"@,
        FieldId::Tp1 => "tp1"@,
        FieldId::Tp2 => "tp2"@,
        FieldId::Tp3 => "tp3"@,
        FieldId::MarginMode => "marginMode"@,
        FieldId::Event => "event"@,
        FieldId::Outcome => "outcome"@,
        FieldId::Odds => "odds"@,
        FieldId::SettleDate => "settleDate"@,
        FieldId::ContractCode => "contractCode"@,
        FieldId::OptionType => "optionType"@,
        FieldId::Strike => "strike"@,
        FieldId::Expiry => "expiry"@,
        FieldId::PremiumCap => "premiumCap"@,
        FieldId::Chain => "chain"@,
        FieldId::ProtocolPool => "protocolPool"@,
        FieldId::Apy => "apy"@,
        FieldId::Tvl => "tvl"@,
        FieldId::Token => "token"@,
        FieldId::RedeemTerms => "redeemTerms"@,
    }
}

/// The class-specific fields of an asset class, in their fixed order.
pub open spec fn spec_class_ids(class: AssetClass) -> Seq<FieldId> {
    match class {
        AssetClass::Spot => seq![FieldId::Market, FieldId::Symbol, FieldId::Side, FieldId::Price, FieldId::OrderType, FieldId::TokenAddr, FieldId::Slippage],
        AssetClass::Perp => seq![FieldId::Pair, FieldId::Direction, FieldId::Leverage, FieldId::Entry, FieldId::StopLoss, FieldId::Tp, FieldId::Tp1, FieldId::Tp2, FieldId::Tp3, FieldId::MarginMode],
        AssetClass::Prediction => seq![FieldId::Event, FieldId::Outcome, FieldId::Odds, FieldId::SettleDate],
        AssetClass::Option => seq![FieldId::ContractCode, FieldId::Side, FieldId::OptionType, FieldId::Strike, FieldId::Expiry, FieldId::PremiumCap],
        AssetClass::Defi => seq![FieldId::Chain, FieldId::ProtocolPool, FieldId::Apy, FieldId::Tvl, FieldId::Token, FieldId::RedeemTerms],
    }
}

/// Every field an asset class accepts, in its fixed order: the class fields,
/// then `position` and `ttl`.
pub open spec fn spec_all_ids(class: AssetClass) -> Seq<FieldId> {
    spec_class_ids(class) + seq![FieldId::Position, FieldId::Ttl]
}

impl FieldId {
    /// The canonical id string.
    pub fn as_str(&self) -> (r: &'static str)
        ensures
            r@ == spec_id_str(*self),
    {
        match self {
            FieldId::Position => "position",
            FieldId::Ttl => "ttl",
            FieldId::Market => "market",
            FieldId::Symbol => "symbol",
            FieldId::Side => "side",
            FieldId::Price => "price",
            FieldId::OrderType => "orderType",
            FieldId::TokenAddr => "tokenAddr",
            FieldId::Slippage => "slippage",
            FieldId::Pair => "pair",
            FieldId::Direction => "direction",
            FieldId::Leverage => "leverage",
            FieldId::Entry => "entry",
            FieldId::StopLoss => "stopLoss",
            FieldId::Tp => "takeProfit",
            FieldId::Tp1 => "tp1",
            FieldId::Tp2 => "tp2",
            FieldId::Tp3 => "tp3",
            FieldId::MarginMode => "marginMode",
            FieldId::Event => "event",
            FieldId::Outcome => "outcome",
            FieldId::Odds => "odds",
            FieldId::SettleDate => "settleDate",
            FieldId::ContractCode => "contractCode",
            FieldId::OptionType => "optionType",
            FieldId::Strike => "strike",
            FieldId::Expiry => "expiry",
            FieldId::PremiumCap => "premiumCap",
            FieldId::Chain => "chain",
            FieldId::ProtocolPool => "protocolPool",
            FieldId::Apy => "apy",
            FieldId::Tvl => "tvl",
            FieldId::Token => "token",
            FieldId::RedeemTerms => "redeemTerms",
        }
    }
}

/// The label of a field in a language.
pub fn label_str(id: FieldId, lang: Language) -> (r: &'static str)
    ensures
        r@ == spec_label(id, lang),
{
    match id {
        FieldId::Position => if lang == Language::Zh {
            "仓位"
        } else {
            "position"
        },
        FieldId::Ttl => if lang == Language::Zh {
            "有效期"
        } else {
            "ttl"
        },
        FieldId::Market => if lang == Language::Zh {
            "市场"
        } else {
            "market"
        },
        FieldId::Symbol => if lang == Language::Zh {
            "币种"
        } else {
            "symbol"
        },
        FieldId::Side => if lang == Language::Zh {
            "方向"
        } else {
            "side"
        },
        FieldId::Price => if lang == Language::Zh {
            "价格"
        } else {
            "price"
        },
        FieldId::OrderType => if lang == Language::Zh {
            "类型"
        } else {
            "orderType"
        },
        FieldId::TokenAddr => if lang == Language::Zh {
            "合约地址"
        } else {
            "tokenAddr"
        },
        FieldId::Slippage => if lang == Language::Zh {
            "滑点"
        } else {
            "slippage"
        },
        FieldId::Pair => if lang == Language::Zh {
            "交易对"
        } else {
            "pair"
        },
        FieldId::Direction => if lang == Language::Zh {
            "方向"
        } else {
            "direction"
        },
        FieldId::Leverage => if lang == Language::Zh {
            "杠杆"
        } else {
            "leverage"
        },
        FieldId::Entry => if lang == Language::Zh {
            "入场"
        } else {
            "entry"
        },
        FieldId::StopLoss => if lang == Language::Zh {
            "止损"
        } else {
            "stopLoss"
        },
        FieldId::Tp => if lang == Language::Zh {
            "止盈"
        } else {
            "takeProfit"
        },
        FieldId::Tp1 => if lang == Language::Zh {
            "止盈1"
        } else {
            "tp1"
        },
        FieldId::Tp2 => if lang == Language::Zh {
            "止盈2"
        } else {
            "tp2"
        },
        FieldId::Tp3 => if lang == Language::Zh {
            "止盈3"
        } else {
            "tp3"
        },
        FieldId::MarginMode => if lang == Language::Zh {
            "保证金"
        } else {
            "marginMode"
        },
        FieldId::Event => if lang == Language::Zh {
            "事件"
        } else {
            "event"
        },
        FieldId::Outcome => if lang == Language::Zh {
            "结果"
        } else {
            "outcome"
        },
        FieldId::Odds => if lang == Language::Zh {
            "赔率"
        } else {
            "odds"
        },
        FieldId::SettleDate => if lang == Language::Zh {
            "结算日"
        } else {
            "settleDate"
        },
        FieldId::ContractCode => if lang == Language::Zh {
            "合约代码"
        } else {
            "contractCode"
        },
        FieldId::OptionType => if lang == Language::Zh {
            "类型"
        } else {
            "optionType"
        },
        FieldId::Strike => if lang == Language::Zh {
            "行权价"
        } else {
            "strike"
        },
        FieldId::Expiry => if lang == Language::Zh {
            "到期日"
        } else {
            "expiry"
        },
        FieldId::PremiumCap => if lang == Language::Zh {
            "权利金上限"
        } else {
            "premiumCap"
        },
        FieldId::Chain => if lang == Language::Zh {
            "链"
        } else {
            "chain"
        },
        FieldId::ProtocolPool => if lang == Language::Zh {
            "协议"
        } else {
            "protocolPool"
        },
        FieldId::Apy => if lang == Language::Zh {
            "年化"
        } else {
            "apy"
        },
        FieldId::Tvl => if lang == Language::Zh {
            "锁仓"
        } else {
            "tvl"
        },
        FieldId::Token => if lang == Language::Zh {
            "币种"
        } else {
            "token"
        },
        FieldId::RedeemTerms => if lang == Language::Zh {
            "赎回"
        } else {
            "redeemTerms"
        },
    }
}

/// Every field an asset class accepts, in its fixed order.
pub fn all_ids(class: AssetClass) -> (r: Vec<FieldId>)
    ensures
        r@ == spec_all_ids(class),
{
    let mut v: Vec<FieldId> = match class {
        AssetClass::Spot => vec![FieldId::Market, FieldId::Symbol, FieldId::Side, FieldId::Price, FieldId::OrderType, FieldId::TokenAddr, FieldId::Slippage],
        AssetClass::Perp => vec![FieldId::Pair, FieldId::Direction, FieldId::Leverage, FieldId::Entry, FieldId::StopLoss, FieldId::Tp, FieldId::Tp1, FieldId::Tp2, FieldId::Tp3, FieldId::MarginMode],
        AssetClass::Prediction => vec![FieldId::Event, FieldId::Outcome, FieldId::Odds, FieldId::SettleDate],
        AssetClass::Option => vec![FieldId::ContractCode, FieldId::Side, FieldId::OptionType, FieldId::Strike, FieldId::Expiry, FieldId::PremiumCap],
        AssetClass::Defi => vec![FieldId::Chain, FieldId::ProtocolPool, FieldId::Apy, FieldId::Tvl, FieldId::Token, FieldId::RedeemTerms],
    };
    let ghost pre = v@;
    v.push(FieldId::Position);
    v.push(FieldId::Ttl);
    assert(v@ =~= pre + seq![FieldId::Position, FieldId::Ttl]);
    v
}

// ── Positions in sequences ──────────────────────────────────────────────────

/// Index of the first `x` in `s`, or `-1`.
pub open spec fn pos_of<A>(s: Seq<A>, x: A) -> int
    decreases s.len(),
{
    if s.len() == 0 {
        -1
    } else if s[0] == x {
        0
    } else {
        let r = pos_of(s.drop_first(), x);
        if r < 0 {
            -1
        } else {
            r + 1
        }
    }
}

pub proof fn lemma_pos_of<A>(s: Seq<A>, x: A)
    ensures
        -1 <= pos_of(s, x) < s.len(),
        pos_of(s, x) >= 0 ==> s[pos_of(s, x)] == x,
        forall|j: int| 0 <= j < pos_of(s, x) ==> s[j] != x,
        pos_of(s, x) < 0 <==> !s.contains(x),
    decreases s.len(),
{
    if s.len() > 0 && s[0] != x {
        lemma_pos_of(s.drop_first(), x);
        assert forall|j: int| 0 <= j < pos_of(s, x) implies s[j] != x by {
            if j > 0 {
                assert(s[j] == s.drop_first()[j - 1]);
            }
        }
        if pos_of(s, x) < 0 {
            assert forall|j: int| 0 <= j < s.len() implies s[j] != x by {
                if j > 0 {
                    assert(s[j] == s.drop_first()[j - 1]);
                }
            }
        } else {
            assert(s[pos_of(s, x)] == s.drop_first()[pos_of(s, x) - 1]);
        }
    } else if s.len() > 0 {
        assert(s.contains(x)) by {
            assert(s[0] == x);
        }
    }
}

pub proof fn lemma_pos_of_at<A>(s: Seq<A>, x: A, i: int)
    requires
        0 <= i < s.len(),
        s[i] == x,
        forall|j: int| 0 <= j < i ==> s[j] != x,
    ensures
        pos_of(s, x) == i,
    decreases i,
{
    if i > 0 {
        assert forall|j: int| 0 <= j < i - 1 implies s.drop_first()[j] != x by {
            assert(s.drop_first()[j] == s[j + 1]);
        }
        lemma_pos_of_at(s.drop_first(), x, i - 1);
    }
}

pub proof fn lemma_pos_of_none<A>(s: Seq<A>, x: A)
    requires
        forall|j: int| 0 <= j < s.len() ==> s[j] != x,
    ensures
        pos_of(s, x) == -1,
{
    lemma_pos_of(s, x);
    if pos_of(s, x) >= 0 {
        assert(s[pos_of(s, x)] == x);
    }
}

// ── Label lookup ───────────────────────────────────────────────────────────

/// The first `(id, language)` among `ids` whose Chinese or English label is
/// `label` (Chinese checked first for each id).
pub open spec fn find_label(ids: Seq<FieldId>, label: Seq<char>) -> Option<(FieldId, Language)>
    decreases ids.len(),
{
    if ids.len() == 0 {
        None
    } else if spec_label(ids[0], Language::Zh) == label {
        Some((ids[0], Language::Zh))
    } else if spec_label(ids[0], Language::En) == label {
        Some((ids[0], Language::En))
    } else {
        find_label(ids.drop_first(), label)
    }
}

/// The field id and label language of `label` for an asset class.
pub open spec fn spec_field_id(class: AssetClass, label: Seq<char>) -> Option<(FieldId, Language)> {
    find_label(spec_all_ids(class), label)
}

/// Maps a label to `(canonical id, label language)`, or `None` when
/// the label is not valid for this class in either language.
pub fn field_id(class: AssetClass, label: &[char]) -> (r: Option<(FieldId, Language)>)
    ensures
        r == spec_field_id(class, label@),
{
    let ids = all_ids(class);
    let mut i: usize = 0;
    assert(ids@.skip(0) =~= ids@);
    while i < ids.len()
        invariant
            i <= ids@.len(),
            ids@ == spec_all_ids(class),
            spec_field_id(class, label@) == find_label(ids@.skip(i as int), label@),
        decreases ids@.len() - i,
    {
        let id = ids[i];
        assert(ids@.skip(i as int)[0] == id);
        assert(ids@.skip(i as int).drop_first() =~= ids@.skip(i + 1));
        if chars_eq_str(label, label_str(id, Language::Zh)) {
            return Some((id, Language::Zh));
        }
        if chars_eq_str(label, label_str(id, Language::En)) {
            return Some((id, Language::En));
        }
        i = i + 1;
    }
    None
}

/// The rank of a field in its class's fixed order (`-1` if not accepted).
pub open spec fn spec_rank(class: AssetClass, id: FieldId) -> int {
    pos_of(spec_all_ids(class), id)
}

/// The position of `id` in `ids`, or `-1`.
pub fn id_pos(ids: &Vec<FieldId>, id: FieldId) -> (r: i64)
    requires
        ids@.len() <= i64::MAX,
    ensures
        r == pos_of(ids@, id),
{
    let mut i: usize = 0;
    while i < ids.len()
        invariant
            i <= ids@.len() <= i64::MAX,
            forall|j: int| 0 <= j < i ==> ids@[j] != id,
        decreases ids@.len() - i,
    {
        if ids[i] == id {
            proof {
                lemma_pos_of_at(ids@, id, i as int);
            }
            return i as i64;
        }
        i = i + 1;
    }
    proof {
        lemma_pos_of_none(ids@, id);
    }
    -1
}

// ── Field splitting ──────────────────────────────────────────────────────────

/// One `label:value` field: trimmed, split at the first `:`, both sides
/// trimmed. Empty field or empty value → `EmptyField`; no `:` or an empty
/// label → `ForbiddenContent`.
pub open spec fn spec_field(part: Seq<char>) -> Result<(Seq<char>, Seq<char>), ParseError> {
    let t = trim(part);
    if t.len() == 0 {
        Err(ParseError::EmptyField)
    } else {
        match split_once(t, ':') {
            None => Err(ParseError::ForbiddenContent),
            Some((l, v)) => {
                if trim(l).len() == 0 {
                    Err(ParseError::ForbiddenContent)
                } else if trim(v).len() == 0 {
                    Err(ParseError::EmptyField)
                } else {
                    Ok((trim(l), trim(v)))
                }
            },
        }
    }
}

/// The fields of `parts`, left to right; the first failing field decides.
pub open spec fn spec_fields(parts: Seq<Seq<char>>) -> Result<Seq<(Seq<char>, Seq<char>)>, ParseError>
    decreases parts.len(),
{
    if parts.len() == 0 {
        Ok(Seq::empty())
    } else {
        match spec_fields(parts.drop_last()) {
            Err(e) => Err(e),
            Ok(acc) => match spec_field(parts.last()) {
                Err(e) => Err(e),
                Ok(f) => Ok(acc.push(f)),
            },
        }
    }
}

/// Splits the text after the header on `|` into `(label, value)` pairs.
/// Blank text → `FieldCountError`.
pub open spec fn spec_split_fields(s: Seq<char>) -> Result<Seq<(Seq<char>, Seq<char>)>, ParseError> {
    if trim(s).len() == 0 {
        Err(ParseError::FieldCountError)
    } else {
        spec_fields(split_on(s, '|'))
    }
}

/// The views of `(label, value)` string pairs.
pub open spec fn pairs_view(v: Seq<(String, String)>) -> Seq<(Seq<char>, Seq<char>)> {
    v.map_values(|p: (String, String)| (p.0@, p.1@))
}

pub open spec fn pairs_result_view(r: Result<Vec<(String, String)>, ParseError>) -> Result<
    Seq<(Seq<char>, Seq<char>)>,
    ParseError,
> {
    match r {
        Ok(v) => Ok(pairs_view(v@)),
        Err(e) => Err(e),
    }
}

fn one_field(part: &[char]) -> (r: Result<(Vec<char>, Vec<char>), ParseError>)
    ensures
        match spec_field(part@) {
            Ok((l, v)) => r matches Ok((x, y)) && x@ == l && y@ == v,
            Err(e) => r == Err::<(Vec<char>, Vec<char>), ParseError>(e),
        },
{
    let t = trim_chars(part);
    if t.len() == 0 {
        return Err(ParseError::EmptyField);
    }
    match split_once_chars(t.as_slice(), ':') {
        None => Err(ParseError::ForbiddenContent),
        Some((l, v)) => {
            let l = trim_chars(l.as_slice());
            let v = trim_chars(v.as_slice());
            if l.len() == 0 {
                Err(ParseError::ForbiddenContent)
            } else if v.len() == 0 {
                Err(ParseError::EmptyField)
            } else {
                Ok((l, v))
            }
        },
    }
}

/// The `(label, value)` pairs of the character text `s`.
pub fn split_field_chars(s: &[char]) -> (r: Result<Vec<(Vec<char>, Vec<char>)>, ParseError>)
    ensures
        match spec_split_fields(s@) {
            Ok(fs) => r matches Ok(v) && v@.len() == fs.len() && forall|i: int|
                0 <= i < fs.len() ==> (#[trigger] v@[i]).0@ == fs[i].0 && v@[i].1@ == fs[i].1,
            Err(e) => r == Err::<Vec<(Vec<char>, Vec<char>)>, ParseError>(e),
        },
{
    let t = trim_chars(s);
    if t.len() == 0 {
        return Err(ParseError::FieldCountError);
    }
    let parts = split_chars(s, '|');
    let ghost ps = views(parts@);
    let mut out: Vec<(Vec<char>, Vec<char>)> = Vec::new();
    let mut i: usize = 0;
    assert(ps.take(0) =~= Seq::<Seq<char>>::empty());
    while i < parts.len()
        invariant
            i <= parts@.len(),
            ps == views(parts@),
            ps == split_on(s@, '|'),
            trim(s@).len() != 0,
            spec_fields(ps.take(i as int)) matches Ok(fs) && out@.len() == fs.len() && forall|
                k: int,
            |
                0 <= k < fs.len() ==> (#[trigger] out@[k]).0@ == fs[k].0 && out@[k].1@
                    == fs[k].1,
        decreases parts@.len() - i,
    {
        assert(ps.take(i + 1).drop_last() =~= ps.take(i as int));
        assert(ps.take(i + 1).last() == parts@[i as int]@);
        match one_field(parts[i].as_slice()) {
            Err(e) => {
                assert(spec_fields(ps.take(i + 1)) == Err::<Seq<(Seq<char>, Seq<char>)>, ParseError>(e));
                proof {
                    lemma_fields_err_sticky(ps, i + 1);
                }
                assert(trim(s@).len() != 0);
                assert(spec_split_fields(s@) == Err::<Seq<(Seq<char>, Seq<char>)>, ParseError>(e));
                return Err(e);
            },
            Ok(f) => {
                out.push(f);
            },
        }
        i = i + 1;
    }
    assert(ps.take(parts@.len() as int) =~= ps);
    Ok(out)
}

proof fn lemma_fields_err_sticky(ps: Seq<Seq<char>>, i: int)
    requires
        0 <= i <= ps.len(),
        spec_fields(ps.take(i)) is Err,
    ensures
        spec_fields(ps) == spec_fields(ps.take(i)),
    decreases ps.len() - i,
{
    if i < ps.len() {
        assert(ps.take(i + 1).drop_last() =~= ps.take(i));
        lemma_fields_err_sticky(ps, i + 1);
    } else {
        assert(ps.take(i) =~= ps);
    }
}

/// Splits the post-header text on `|`, trims, and parses each `label:value`.
/// Empty field → `EmptyField`; a field with no `:` or an empty label →
/// `ForbiddenContent`; blank text → `FieldCountError`.
pub fn split_fields(remainder: &str) -> (r: Result<Vec<(String, String)>, ParseError>)
    ensures
        pairs_result_view(r) == spec_split_fields(remainder@),
{
    let s = chars_of(remainder);
    match split_field_chars(s.as_slice()) {
        Err(e) => Err(e),
        Ok(v) => {
            let mut out: Vec<(String, String)> = Vec::new();
            let mut i: usize = 0;
            while i < v.len()
                invariant
                    i <= v@.len(),
                    out@.len() == i,
                    forall|k: int| 0 <= k < i ==> (#[trigger] out@[k]).0@ == v@[k].0@ && out@[k].1@ == v@[k].1@,
                decreases v@.len() - i,
            {
                let l = string_from_chars(v[i].0.as_slice());
                let x = string_from_chars(v[i].1.as_slice());
                out.push((l, x));
                i = i + 1;
            }
            assert(pairs_view(out@) =~= match spec_split_fields(remainder@) {
                Ok(fs) => fs,
                Err(_) => pairs_view(out@),
            });
            Ok(out)
        },
    }
}

// ── Field map ────────────────────────────────────────────────────────────────

/// The ids of field-map entries.
pub open spec fn entry_ids(e: Seq<(FieldId, Seq<char>)>) -> Seq<FieldId> {
    e.map_values(|p: (FieldId, Seq<char>)| p.0)
}

/// The value of the first entry for `id`.
pub open spec fn take_val(e: Seq<(FieldId, Seq<char>)>, id: FieldId) -> Option<Seq<char>> {
    let p = pos_of(entry_ids(e), id);
    if p < 0 {
        None
    } else {
        Some(e[p].1)
    }
}

/// The entries without the first entry for `id`.
pub open spec fn drop_id(e: Seq<(FieldId, Seq<char>)>, id: FieldId) -> Seq<(FieldId, Seq<char>)> {
    let p = pos_of(entry_ids(e), id);
    if p < 0 {
        e
    } else {
        e.remove(p)
    }
}

/// A required field: its value, or `FieldCountError` when absent.
pub open spec fn require_val(e: Seq<(FieldId, Seq<char>)>, id: FieldId) -> Result<Seq<char>, ParseError> {
    match take_val(e, id) {
        Some(v) => Ok(v),
        None => Err(ParseError::FieldCountError),
    }
}

/// Builds the entries from raw `(label, value)` pairs left to right: an
/// unknown label → `ForbiddenContent`, a label in the other language →
/// `LanguageMix`, a repeated field → `DirectionConstraint` for the stop-loss
/// and `FieldCountError` otherwise.
pub open spec fn spec_build(class: AssetClass, lang: Language, raw: Seq<(Seq<char>, Seq<char>)>) -> Result<Seq<(FieldId, Seq<char>)>, ParseError>
    decreases raw.len(),
{
    if raw.len() == 0 {
        Ok(Seq::empty())
    } else {
        match spec_build(class, lang, raw.drop_last()) {
            Err(e) => Err(e),
            Ok(entries) => match spec_field_id(class, raw.last().0) {
                None => Err(ParseError::ForbiddenContent),
                Some((id, l)) => if l != lang {
                    Err(ParseError::LanguageMix)
                } else if entry_ids(entries).contains(id) {
                    Err(
                        if id == FieldId::StopLoss {
                            ParseError::DirectionConstraint
                        } else {
                            ParseError::FieldCountError
                        },
                    )
                } else {
                    Ok(entries.push((id, raw.last().1)))
                },
            },
        }
    }
}

proof fn lemma_build_err_sticky(class: AssetClass, lang: Language, raw: Seq<(Seq<char>, Seq<char>)>, i: int)
    requires
        0 <= i <= raw.len(),
        spec_build(class, lang, raw.take(i)) is Err,
    ensures
        spec_build(class, lang, raw) == spec_build(class, lang, raw.take(i)),
    decreases raw.len() - i,
{
    if i < raw.len() {
        assert(raw.take(i + 1).drop_last() =~= raw.take(i));
        lemma_build_err_sticky(class, lang, raw, i + 1);
    } else {
        assert(raw.take(i) =~= raw);
    }
}

/// An ordered, consume-once map of canonical field id → raw value.
#[derive(Debug)]
pub struct FieldMap {
    entries: Vec<(FieldId, String)>,
}

impl View for FieldMap {
    type V = Seq<(FieldId, Seq<char>)>;

    closed spec fn view(&self) -> Seq<(FieldId, Seq<char>)> {
        self.entries@.map_values(|e: (FieldId, String)| (e.0, e.1@))
    }
}

pub open spec fn fieldmap_result_view(r: Result<FieldMap, ParseError>) -> Result<Seq<(FieldId, Seq<char>)>, ParseError> {
    match r {
        Ok(m) => Ok(m@),
        Err(e) => Err(e),
    }
}

impl FieldMap {
    /// Builds from raw `(label, value)` pairs, enforcing the same-language rule
    /// and rejecting unknown and repeated labels.
    pub fn build(class: AssetClass, header_lang: Language, raw: &[(String, String)]) -> (r: Result<FieldMap, ParseError>)
        ensures
            fieldmap_result_view(r) == spec_build(class, header_lang, pairs_view(raw@)),
    {
        let ghost rv = pairs_view(raw@);
        let mut m = FieldMap { entries: Vec::new() };
        let mut i: usize = 0;
        assert(rv.take(0) =~= Seq::<(Seq<char>, Seq<char>)>::empty());
        assert(m@ =~= Seq::<(FieldId, Seq<char>)>::empty());
        while i < raw.len()
            invariant
                i <= raw@.len(),
                rv == pairs_view(raw@),
                spec_build(class, header_lang, rv.take(i as int)) == Ok::<Seq<(FieldId, Seq<char>)>, ParseError>(m@),
            decreases raw@.len() - i,
        {
            assert(rv.take(i + 1).drop_last() =~= rv.take(i as int));
            assert(rv.take(i + 1).last() == rv[i as int]);
            let label = chars_of(raw[i].0.as_str());
            match field_id(class, label.as_slice()) {
                None => {
                    proof {
                        lemma_build_err_sticky(class, header_lang, rv, i + 1);
                    }
                    return Err(ParseError::ForbiddenContent);
                },
                Some((id, lang)) => {
                    if lang != header_lang {
                        proof {
                            lemma_build_err_sticky(class, header_lang, rv, i + 1);
                        }
                        return Err(ParseError::LanguageMix);
                    }
                    if m.has(id) {
                        proof {
                            lemma_build_err_sticky(class, header_lang, rv, i + 1);
                        }
                        return Err(
                            if id == FieldId::StopLoss {
                                ParseError::DirectionConstraint
                            } else {
                                ParseError::FieldCountError
                            },
                        );
                    }
                    let ghost before = m@;
                    m.entries.push((id, raw[i].1.clone()));
                    assert(m@ =~= before.push((id, rv[i as int].1)));
                },
            }
            i = i + 1;
        }
        assert(rv.take(raw@.len() as int) =~= rv);
        Ok(m)
    }

    fn has(&self, id: FieldId) -> (r: bool)
        ensures
            r == entry_ids(self@).contains(id),
    {
        let mut i: usize = 0;
        while i < self.entries.len()
            invariant
                i <= self.entries@.len(),
                forall|j: int| 0 <= j < i ==> self.entries@[j].0 != id,
            decreases self.entries@.len() - i,
        {
            if self.entries[i].0 == id {
                assert(entry_ids(self@)[i as int] == id);
                return true;
            }
            i = i + 1;
        }
        assert forall|j: int| 0 <= j < entry_ids(self@).len() implies entry_ids(self@)[j] != id by {
            assert(entry_ids(self@)[j] == self.entries@[j].0);
        }
        false
    }

    /// Removes and returns the value of the first entry for `id`, if present.
    pub fn take(&mut self, id: FieldId) -> (r: Option<String>)
        ensures
            opt_str_view(r) == take_val(old(self)@, id),
            final(self)@ == drop_id(old(self)@, id),
    {
        let ghost ids = entry_ids(self@);
        let mut i: usize = 0;
        while i < self.entries.len()
            invariant
                i <= self.entries@.len(),
                ids == entry_ids(self@),
                self@ == old(self)@,
                forall|j: int| 0 <= j < i ==> self.entries@[j].0 != id,
            decreases self.entries@.len() - i,
        {
            if self.entries[i].0 == id {
                proof {
                    assert forall|j: int| 0 <= j < i implies ids[j] != id by {
                        assert(ids[j] == self.entries@[j].0);
                    }
                    lemma_pos_of_at(ids, id, i as int);
                }
                let ghost before = self.entries@;
                let (_, v) = self.entries.remove(i);
                assert(self@ =~= old(self)@.remove(i as int));
                return Some(v);
            }
            i = i + 1;
        }
        proof {
            assert forall|j: int| 0 <= j < ids.len() implies ids[j] != id by {
                assert(ids[j] == self.entries@[j].0);
            }
            lemma_pos_of_none(ids, id);
        }
        None
    }

    /// Removes and returns a required field's value, or `FieldCountError`.
    pub fn require(&mut self, id: FieldId) -> (r: Result<String, ParseError>)
        ensures
            res_str_view(r) == require_val(old(self)@, id),
            final(self)@ == drop_id(old(self)@, id),
    {
        match self.take(id) {
            Some(v) => Ok(v),
            None => Err(ParseError::FieldCountError),
        }
    }

    /// Fails when any field remains unconsumed (an extra field for this form).
    pub fn ensure_consumed(&self) -> (r: Result<(), ParseError>)
        ensures
            r == (if self@.len() == 0 {
                Ok::<(), ParseError>(())
            } else {
                Err(ParseError::FieldCountError)
            }),
    {
        if self.entries.len() == 0 {
            Ok(())
        } else {
            Err(ParseError::FieldCountError)
        }
    }
}

pub open spec fn opt_str_view(o: Option<String>) -> Option<Seq<char>> {
    match o {
        Some(s) => Some(s@),
        None => None,
    }
}

pub open spec fn res_str_view(r: Result<String, ParseError>) -> Result<Seq<char>, ParseError> {
    match r {
        Ok(s) => Ok(s@),
        Err(e) => Err(e),
    }
}


// ── Forbidden-content scan ───────────────────────────────────────────────────

/// Pictograph, emoticon, transport, dingbat, arrow, letterlike, technical and
/// geometric-shape blocks, the zero-width joiner and variation selector 16.
pub open spec fn is_emoji(c: char) -> bool {
    let cp = c as u32;
    ||| (0x1F000u32 <= cp && cp <= 0x1FAFFu32)
    ||| (0x2600u32 <= cp && cp <= 0x27BFu32)
    ||| (0x2B00u32 <= cp && cp <= 0x2BFFu32)
    ||| (0x2100u32 <= cp && cp <= 0x214Fu32)
    ||| (0x2190u32 <= cp && cp <= 0x21FFu32)
    ||| (0x2300u32 <= cp && cp <= 0x23FFu32)
    ||| (0x25A0u32 <= cp && cp <= 0x25FFu32)
    ||| cp == 0x200Du32
    ||| cp == 0xFE0Fu32
}

pub open spec fn has_emoji(s: Seq<char>) -> bool {
    exists|i: int| 0 <= i < s.len() && is_emoji(#[trigger] s[i])
}

pub open spec fn has_link(s: Seq<char>) -> bool {
    contains_sub(s, "http://"@) || contains_sub(s, "https://"@) || contains_sub(s, "www."@)
}

/// Content beyond the field grammar: a link, an `@`-mention, or an emoji.
pub open spec fn spec_contains_forbidden(s: Seq<char>) -> bool {
    has_link(s) || s.contains('@') || has_emoji(s)
}

fn is_emoji_char(c: char) -> (r: bool)
    ensures
        r == is_emoji(c),
{
    let cp = c as u32;
    (0x1F000 <= cp && cp <= 0x1FAFF) || (0x2600 <= cp && cp <= 0x27BF) || (0x2B00 <= cp && cp
        <= 0x2BFF) || (0x2100 <= cp && cp <= 0x214F) || (0x2190 <= cp && cp <= 0x21FF) || (0x2300
        <= cp && cp <= 0x23FF) || (0x25A0 <= cp && cp <= 0x25FF) || cp == 0x200D || cp == 0xFE0F
}

fn has_emoji_chars(v: &[char]) -> (r: bool)
    ensures
        r == has_emoji(v@),
{
    let mut i: usize = 0;
    while i < v.len()
        invariant
            i <= v@.len(),
            forall|j: int| 0 <= j < i ==> !is_emoji(#[trigger] v@[j]),
        decreases v@.len() - i,
    {
        if is_emoji_char(v[i]) {
            return true;
        }
        i = i + 1;
    }
    false
}

/// Whether `v` holds a link or an emoji.
pub fn has_link_or_emoji(v: &[char]) -> (r: bool)
    ensures
        r == (has_link(v@) || has_emoji(v@)),
{
    let http = chars_of("http://");
    let https = chars_of("https://");
    let www = chars_of("www.");
    contains_chars(v, http.as_slice()) || contains_chars(v, https.as_slice()) || contains_chars(
        v,
        www.as_slice(),
    ) || has_emoji_chars(v)
}

/// True if the input carries content beyond the field grammar: a link, an
/// `@`-mention, or an emoji. CJK labels and full-width brackets are not
/// flagged.
pub fn contains_forbidden(s: &str) -> (r: bool)
    ensures
        r == spec_contains_forbidden(s@),
{
    let v = chars_of(s);
    let link = chars_of("http://");
    let links = chars_of("https://");
    let www = chars_of("www.");
    contains_chars(v.as_slice(), link.as_slice()) || contains_chars(v.as_slice(), links.as_slice())
        || contains_chars(v.as_slice(), www.as_slice()) || has_char(v.as_slice(), '@')
        || has_emoji_chars(v.as_slice())
}

// ── Decimal comparisons on text ──────────────────────────────────────────────

/// `a < b` for two decimal texts; `false` when either is not a decimal.
pub open spec fn spec_less_than(a: Seq<char>, b: Seq<char>) -> bool {
    is_decimal(a) && is_decimal(b) && dv_lt(dec_parts(a), dec_parts(b))
}

/// `a == b` (as exact values) for two decimal texts; `false` when either is
/// not a decimal.
pub open spec fn spec_equal(a: Seq<char>, b: Seq<char>) -> bool {
    is_decimal(a) && is_decimal(b) && dv_eq(dec_parts(a), dec_parts(b))
}

/// `a < b` for two decimal strings. A string that is not a decimal makes the
/// comparison `false`.
pub fn less_than(a: &str, b: &str) -> (r: bool)
    ensures
        r == spec_less_than(a@, b@),
{
    match (Decimal::parse(a), Decimal::parse(b)) {
        (Some(x), Some(y)) => x.lt(&y),
        _ => false,
    }
}

/// `a > b` for two decimal strings.
pub fn greater_than(a: &str, b: &str) -> (r: bool)
    ensures
        r == spec_less_than(b@, a@),
{
    less_than(b, a)
}

/// `a == b` for two decimal strings (exact, whatever the number of digits).
pub fn equal(a: &str, b: &str) -> (r: bool)
    ensures
        r == spec_equal(a@, b@),
{
    match (Decimal::parse(a), Decimal::parse(b)) {
        (Some(x), Some(y)) => x.same_value(&y),
        _ => false,
    }
}

// ── Numeric, range, percent, TTL and date validators ─────────────────────────

/// A plain absolute decimal in canonical form, or `InvalidNumber`.
pub open spec fn spec_parse_decimal(v: Seq<char>) -> Result<Seq<char>, ParseError> {
    if is_decimal(v) {
        Ok(plain_text(v))
    } else {
        Err(ParseError::InvalidNumber)
    }
}

/// Parses a plain absolute decimal; malformed → `InvalidNumber`.
pub fn parse_decimal(value: &str) -> (r: Result<String, ParseError>)
    ensures
        res_str_view(r) == spec_parse_decimal(value@),
{
    match Decimal::parse(value) {
        Some(d) => Ok(d.to_plain_string()),
        None => Err(ParseError::InvalidNumber),
    }
}

/// `lo-hi` with two decimals and `lo < hi`, both in canonical form.
pub open spec fn spec_parse_range(v: Seq<char>) -> Result<(Seq<char>, Seq<char>), ParseError> {
    let parts = split_on(v, '-');
    if parts.len() != 2 || !is_decimal(parts[0]) || !is_decimal(parts[1]) {
        Err(ParseError::InvalidNumber)
    } else if !dv_lt(dec_parts(parts[0]), dec_parts(parts[1])) {
        Err(ParseError::OutOfRange)
    } else {
        Ok((plain_text(parts[0]), plain_text(parts[1])))
    }
}

pub open spec fn range_result_view(r: Result<PriceRange, ParseError>) -> Result<(Seq<char>, Seq<char>), ParseError> {
    match r {
        Ok(p) => Ok(p@),
        Err(e) => Err(e),
    }
}

/// Parses a `lo-hi` absolute price range; enforces `lo < hi`.
pub fn parse_range(value: &str) -> (r: Result<PriceRange, ParseError>)
    ensures
        range_result_view(r) == spec_parse_range(value@),
{
    let v = chars_of(value);
    let parts = split_chars(v.as_slice(), '-');
    assert(views(parts@).len() == parts@.len());
    if parts.len() != 2 {
        return Err(ParseError::InvalidNumber);
    }
    assert(views(parts@)[0] == parts@[0]@ && views(parts@)[1] == parts@[1]@);
    let a = string_from_chars(parts[0].as_slice());
    let b = string_from_chars(parts[1].as_slice());
    let lo = match Decimal::parse(a.as_str()) {
        Some(d) => d,
        None => return Err(ParseError::InvalidNumber),
    };
    let hi = match Decimal::parse(b.as_str()) {
        Some(d) => d,
        None => return Err(ParseError::InvalidNumber),
    };
    if !lo.lt(&hi) {
        return Err(ParseError::OutOfRange);
    }
    Ok(PriceRange { lo: lo.to_plain_string(), hi: hi.to_plain_string() })
}

/// The bounds of a position percent: `0.1` and `20`.
pub open spec fn pos_min() -> (Seq<char>, Seq<char>) {
    (seq!['0'], seq!['1'])
}

pub open spec fn pos_max() -> (Seq<char>, Seq<char>) {
    (seq!['2', '0'], Seq::empty())
}

/// `N%` with `0.1 <= N <= 20`, as a canonical decimal without `%`; anything
/// else (missing `%`, a range, several values, zero) → `OutOfRange`.
pub open spec fn spec_parse_position(v: Seq<char>) -> Result<Seq<char>, ParseError> {
    match strip_suffix(v, seq!['%']) {
        None => Err(ParseError::OutOfRange),
        Some(n) => if !is_decimal(n) {
            Err(ParseError::OutOfRange)
        } else if dv_lt(dec_parts(n), pos_min()) || dv_lt(pos_max(), dec_parts(n)) {
            Err(ParseError::OutOfRange)
        } else {
            Ok(plain_text(n))
        },
    }
}

fn percent_digits() -> (r: Vec<char>)
    ensures
        r@ == seq!['%'],
{
    let mut r: Vec<char> = Vec::new();
    r.push('%');
    assert(r@ =~= seq!['%']);
    r
}

/// Parses a position percent `N%` in `0.1 ..= 20`, normalized to a plain
/// decimal without the `%`.
pub fn parse_position(value: &str) -> (r: Result<String, ParseError>)
    ensures
        res_str_view(r) == spec_parse_position(value@),
{
    let v = chars_of(value);
    let pct = percent_digits();
    let num = match strip_suffix_chars(v.as_slice(), pct.as_slice()) {
        Some(n) => n,
        None => return Err(ParseError::OutOfRange),
    };
    let ns = string_from_chars(num.as_slice());
    let p = match Decimal::parse(ns.as_str()) {
        Some(d) => d,
        None => return Err(ParseError::OutOfRange),
    };
    let mut zero: Vec<char> = Vec::new();
    zero.push('0');
    let mut one: Vec<char> = Vec::new();
    one.push('1');
    let mut twenty: Vec<char> = Vec::new();
    twenty.push('2');
    twenty.push('0');
    assert(zero@ =~= pos_min().0 && one@ =~= pos_min().1);
    assert(twenty@ =~= pos_max().0);
    let lo = Decimal::from_digits(zero, one);
    let hi = Decimal::from_digits(twenty, Vec::new());
    assert(hi@ =~= pos_max());
    if p.lt(&lo) || hi.lt(&p) {
        return Err(ParseError::OutOfRange);
    }
    Ok(p.to_plain_string())
}

/// `N%` with `N <= max`, as a canonical decimal without `%`: no `%` or a
/// malformed number → `InvalidNumber`, above `max` → `OutOfRange`.
pub open spec fn spec_parse_percent_max(v: Seq<char>, max: Seq<char>) -> Result<Seq<char>, ParseError> {
    match strip_suffix(v, seq!['%']) {
        None => Err(ParseError::InvalidNumber),
        Some(n) => if !is_decimal(n) {
            Err(ParseError::InvalidNumber)
        } else if !dv_le(dec_parts(n), dec_parts(max)) {
            Err(ParseError::OutOfRange)
        } else {
            Ok(plain_text(n))
        },
    }
}

/// Parses a percent value with an upper bound (such as slippage `<= 5`);
/// strips the `%`.
pub fn parse_percent_max(value: &str, max: &str) -> (r: Result<String, ParseError>)
    requires
        is_decimal(max@),
    ensures
        res_str_view(r) == spec_parse_percent_max(value@, max@),
{
    let v = chars_of(value);
    let pct = percent_digits();
    let num = match strip_suffix_chars(v.as_slice(), pct.as_slice()) {
        Some(n) => n,
        None => return Err(ParseError::InvalidNumber),
    };
    let ns = string_from_chars(num.as_slice());
    let p = match Decimal::parse(ns.as_str()) {
        Some(d) => d,
        None => return Err(ParseError::InvalidNumber),
    };
    let cap = match Decimal::parse(max) {
        Some(d) => d,
        None => return Err(ParseError::InvalidNumber),
    };
    if !p.le(&cap) {
        return Err(ParseError::OutOfRange);
    }
    Ok(p.to_plain_string())
}

/// `N%` with any decimal `N`, as a canonical decimal without `%`.
pub open spec fn spec_parse_percent_nonneg(v: Seq<char>) -> Result<Seq<char>, ParseError> {
    match strip_suffix(v, seq!['%']) {
        None => Err(ParseError::InvalidNumber),
        Some(n) => if !is_decimal(n) {
            Err(ParseError::InvalidNumber)
        } else {
            Ok(plain_text(n))
        },
    }
}

/// Parses a non-negative percent value (such as an APY); strips the `%`.
pub fn parse_percent_nonneg(value: &str) -> (r: Result<String, ParseError>)
    ensures
        res_str_view(r) == spec_parse_percent_nonneg(value@),
{
    let v = chars_of(value);
    let pct = percent_digits();
    let num = match strip_suffix_chars(v.as_slice(), pct.as_slice()) {
        Some(n) => n,
        None => return Err(ParseError::InvalidNumber),
    };
    let ns = string_from_chars(num.as_slice());
    match Decimal::parse(ns.as_str()) {
        Some(d) => Ok(d.to_plain_string()),
        None => Err(ParseError::InvalidNumber),
    }
}

pub open spec fn dv_one() -> (Seq<char>, Seq<char>) {
    (seq!['1'], Seq::empty())
}

/// Odds: a decimal in `[0, 1]`, in canonical form.
pub open spec fn spec_parse_odds(v: Seq<char>) -> Result<Seq<char>, ParseError> {
    if !is_decimal(v) {
        Err(ParseError::InvalidNumber)
    } else if !dv_le(dec_parts(v), dv_one()) {
        Err(ParseError::OutOfRange)
    } else {
        Ok(plain_text(v))
    }
}

/// Parses odds: an absolute decimal in `[0, 1]`.
pub fn parse_odds(value: &str) -> (r: Result<String, ParseError>)
    ensures
        res_str_view(r) == spec_parse_odds(value@),
{
    let p = match Decimal::parse(value) {
        Some(d) => d,
        None => return Err(ParseError::InvalidNumber),
    };
    let mut d1: Vec<char> = Vec::new();
    d1.push('1');
    let one = Decimal::from_digits(d1, Vec::new());
    assert(one@ =~= dv_one());
    if !p.le(&one) {
        return Err(ParseError::OutOfRange);
    }
    Ok(p.to_plain_string())
}

/// A strictly positive whole number of digits that fits a `u32`.
pub open spec fn spec_parse_leverage(v: Seq<char>) -> Result<u32, ParseError> {
    if v.len() == 0 || !all_digits(v) || digits_val(v) == 0 || digits_val(v) > u32::MAX {
        Err(ParseError::OutOfRange)
    } else {
        Ok(digits_val(v) as u32)
    }
}

/// Parses leverage: a strictly positive integer.
pub fn parse_leverage(value: &str) -> (r: Result<u32, ParseError>)
    ensures
        r == spec_parse_leverage(value@),
{
    let v = chars_of(value);
    if v.len() == 0 || !all_digit_chars(v.as_slice()) {
        return Err(ParseError::OutOfRange);
    }
    match parse_u64_digits(v.as_slice()) {
        None => Err(ParseError::OutOfRange),
        Some(n) => {
            if n == 0 || n > 0xFFFF_FFFFu64 {
                Err(ParseError::OutOfRange)
            } else {
                Ok(n as u32)
            }
        },
    }
}

/// The number text and the unit in seconds of a TTL (`min`, `h` or `d`).
pub open spec fn ttl_unit(v: Seq<char>) -> Option<(Seq<char>, nat)> {
    match strip_suffix(v, "min"@) {
        Some(n) => Some((n, 60)),
        None => match strip_suffix(v, seq!['h']) {
            Some(n) => Some((n, 3600)),
            None => match strip_suffix(v, seq!['d']) {
                Some(n) => Some((n, 86400)),
                None => None,
            },
        },
    }
}

/// `N min | N h | N d` as seconds, which must lie in `300 ..= 604800`
/// (5 minutes to 7 days); anything else → `OutOfRange`.
pub open spec fn spec_parse_ttl(v: Seq<char>) -> Result<u64, ParseError> {
    match ttl_unit(v) {
        None => Err(ParseError::OutOfRange),
        Some((n, unit)) => if n.len() == 0 || !all_digits(n) {
            Err(ParseError::OutOfRange)
        } else if 300 <= digits_val(n) * unit && digits_val(n) * unit <= 604800 {
            Ok((digits_val(n) * unit) as u64)
        } else {
            Err(ParseError::OutOfRange)
        },
    }
}

/// Parses a TTL `Nmin | Nh | Nd` into seconds in `300 ..= 604800`.
pub fn parse_ttl(value: &str) -> (r: Result<u64, ParseError>)
    ensures
        r == spec_parse_ttl(value@),
{
    let v = chars_of(value);
    let min = chars_of("min");
    let mut h: Vec<char> = Vec::new();
    h.push('h');
    let mut d: Vec<char> = Vec::new();
    d.push('d');
    assert(h@ =~= seq!['h'] && d@ =~= seq!['d']);
    let (num, mult): (Vec<char>, u64) = match strip_suffix_chars(v.as_slice(), min.as_slice()) {
        Some(n) => (n, 60),
        None => match strip_suffix_chars(v.as_slice(), h.as_slice()) {
            Some(n) => (n, 3600),
            None => match strip_suffix_chars(v.as_slice(), d.as_slice()) {
                Some(n) => (n, 86400),
                None => return Err(ParseError::OutOfRange),
            },
        },
    };
    if num.len() == 0 || !all_digit_chars(num.as_slice()) {
        return Err(ParseError::OutOfRange);
    }
    let n = match parse_u64_digits(num.as_slice()) {
        Some(n) => n,
        None => {
            assert(digits_val(num@) * mult > 604800) by (nonlinear_arith)
                requires
                    digits_val(num@) > u64::MAX,
                    mult >= 60,
            ;
            return Err(ParseError::OutOfRange);
        },
    };
    let secs = match n.checked_mul(mult) {
        Some(s) => s,
        None => {
            return Err(ParseError::OutOfRange);
        },
    };
    if secs < 300 || secs > 604_800 {
        return Err(ParseError::OutOfRange);
    }
    Ok(secs)
}

pub open spec fn is_leap(y: int) -> bool {
    (y % 4 == 0 && y % 100 != 0) || y % 400 == 0
}

/// Days in a month of the proleptic Gregorian calendar (`0` for a month
/// outside `1..=12`).
pub open spec fn days_in_month(y: int, m: int) -> int {
    if m == 1 || m == 3 || m == 5 || m == 7 || m == 8 || m == 10 || m == 12 {
        31
    } else if m == 4 || m == 6 || m == 9 || m == 11 {
        30
    } else if m == 2 {
        if is_leap(y) {
            29
        } else {
            28
        }
    } else {
        0
    }
}

pub open spec fn date_component_ok(s: Seq<char>) -> bool {
    1 <= s.len() <= 2 && all_digits(s)
}

/// The two-digit zero-padded numeral of `n < 100`.
pub open spec fn two_digits(n: nat) -> Seq<char> {
    seq![digit_char(n / 10), digit_char(n % 10)]
}

/// A real `YYYY-MM-DD` date (month and day may have one digit), returned
/// zero-padded; anything else → `InvalidDate`.
pub open spec fn spec_parse_date(v: Seq<char>) -> Result<Seq<char>, ParseError> {
    let parts = split_on(v, '-');
    if parts.len() != 3 {
        Err(ParseError::InvalidDate)
    } else {
        let ys = parts[0];
        let ms = parts[1];
        let ds = parts[2];
        if ys.len() != 4 || !all_digits(ys) || !date_component_ok(ms) || !date_component_ok(ds) {
            Err(ParseError::InvalidDate)
        } else {
            let y = digits_val(ys);
            let m = digits_val(ms);
            let d = digits_val(ds);
            if m < 1 || m > 12 || d < 1 || d > days_in_month(y as int, m as int) {
                Err(ParseError::InvalidDate)
            } else {
                Ok(ys + seq!['-'] + two_digits(m) + seq!['-'] + two_digits(d))
            }
        }
    }
}

fn days_in_month_exec(y: u64, m: u64) -> (r: u64)
    ensures
        r == days_in_month(y as int, m as int),
{
    if m == 1 || m == 3 || m == 5 || m == 7 || m == 8 || m == 10 || m == 12 {
        31
    } else if m == 4 || m == 6 || m == 9 || m == 11 {
        30
    } else if m == 2 {
        if (y % 4 == 0 && y % 100 != 0) || y % 400 == 0 {
            29
        } else {
            28
        }
    } else {
        0
    }
}

fn push_two_digits(v: &mut Vec<char>, n: u64)
    requires
        n < 100,
    ensures
        final(v)@ == old(v)@ + two_digits(n as nat),
{
    let a = ((n / 10) as u8 + 0x30u8) as char;
    let b = ((n % 10) as u8 + 0x30u8) as char;
    assert(a == digit_char((n / 10) as nat));
    assert(b == digit_char((n % 10) as nat));
    v.push(a);
    v.push(b);
    assert(final(v)@ =~= old(v)@ + two_digits(n as nat));
}

fn date_component(s: &Vec<char>) -> (r: Option<u64>)
    ensures
        date_component_ok(s@) ==> r == Some(digits_val(s@) as u64) && digits_val(s@) < 100,
        !date_component_ok(s@) ==> r is None,
{
    if s.len() == 0 || s.len() > 2 || !all_digit_chars(s.as_slice()) {
        return None;
    }
    proof {
        crate::decimal::lemma_digits_val_bound(s@);
        assert(crate::decimal::pow10(s@.len()) <= 100) by {
            assert(crate::decimal::pow10(0) == 1);
            assert(crate::decimal::pow10(1) == 10);
            assert(crate::decimal::pow10(2) == 100);
        }
    }
    parse_u64_digits(s.as_slice())
}

/// Validates a proleptic-Gregorian `YYYY-MM-DD` (leap-aware, no clock) and
/// returns the zero-padded canonical form.
pub fn parse_date(value: &str) -> (r: Result<String, ParseError>)
    ensures
        res_str_view(r) == spec_parse_date(value@),
{
    let v = chars_of(value);
    let parts = split_chars(v.as_slice(), '-');
    assert(views(parts@).len() == parts@.len());
    if parts.len() != 3 {
        return Err(ParseError::InvalidDate);
    }
    assert(views(parts@)[0] == parts@[0]@ && views(parts@)[1] == parts@[1]@ && views(parts@)[2]
        == parts@[2]@);
    if parts[0].len() != 4 || !all_digit_chars(parts[0].as_slice()) {
        return Err(ParseError::InvalidDate);
    }
    proof {
        crate::decimal::lemma_digits_val_bound(parts@[0]@);
        assert(crate::decimal::pow10(4) == 10000) by {
            assert(crate::decimal::pow10(0) == 1);
            assert(crate::decimal::pow10(1) == 10);
            assert(crate::decimal::pow10(2) == 100);
            assert(crate::decimal::pow10(3) == 1000);
        }
    }
    let year = match parse_u64_digits(parts[0].as_slice()) {
        Some(y) => y,
        None => return Err(ParseError::InvalidDate),
    };
    let month = match date_component(&parts[1]) {
        Some(m) => m,
        None => return Err(ParseError::InvalidDate),
    };
    let day = match date_component(&parts[2]) {
        Some(d) => d,
        None => return Err(ParseError::InvalidDate),
    };
    if month < 1 || month > 12 {
        return Err(ParseError::InvalidDate);
    }
    let dim = days_in_month_exec(year, month);
    if day < 1 || day > dim {
        return Err(ParseError::InvalidDate);
    }
    let mut out = slice_of(parts[0].as_slice(), 0, 4);
    out.push('-');
    push_two_digits(&mut out, month);
    out.push('-');
    push_two_digits(&mut out, day);
    assert(out@ =~= parts@[0]@ + seq!['-'] + two_digits(month as nat) + seq!['-'] + two_digits(
        day as nat,
    ));
    Ok(string_from_chars(out.as_slice()))
}

// ── Keyword whitelists (IllegalKeyword on any non-canonical variant) ──────────

pub open spec fn spec_parse_side(v: Seq<char>) -> Result<Side, ParseError> {
    if v == "BUY"@ {
        Ok(Side::Buy)
    } else if v == "SELL"@ {
        Ok(Side::Sell)
    } else {
        Err(ParseError::IllegalKeyword)
    }
}

/// Spot side: the canonical `BUY` / `SELL` only.
pub fn parse_side(value: &str) -> (r: Result<Side, ParseError>)
    ensures
        r == spec_parse_side(value@),
{
    if str_eq(value, "BUY") {
        Ok(Side::Buy)
    } else if str_eq(value, "SELL") {
        Ok(Side::Sell)
    } else {
        Err(ParseError::IllegalKeyword)
    }
}

pub open spec fn spec_parse_option_side(v: Seq<char>) -> Result<Side, ParseError> {
    if v == "BUY"@ || v == "Buy"@ || v == "买入"@ {
        Ok(Side::Buy)
    } else if v == "SELL"@ || v == "Sell"@ || v == "卖出"@ {
        Ok(Side::Sell)
    } else {
        Err(ParseError::IllegalKeyword)
    }
}

/// Option side: the canonical and the bilingual variants.
pub fn parse_option_side(value: &str) -> (r: Result<Side, ParseError>)
    ensures
        r == spec_parse_option_side(value@),
{
    if str_eq(value, "BUY") || str_eq(value, "Buy") || str_eq(value, "买入") {
        Ok(Side::Buy)
    } else if str_eq(value, "SELL") || str_eq(value, "Sell") || str_eq(value, "卖出") {
        Ok(Side::Sell)
    } else {
        Err(ParseError::IllegalKeyword)
    }
}

pub open spec fn spec_parse_direction(v: Seq<char>) -> Result<Direction, ParseError> {
    if v == "LONG"@ {
        Ok(Direction::Long)
    } else if v == "SHORT"@ {
        Ok(Direction::Short)
    } else {
        Err(ParseError::IllegalKeyword)
    }
}

pub fn parse_direction(value: &str) -> (r: Result<Direction, ParseError>)
    ensures
        r == spec_parse_direction(value@),
{
    if str_eq(value, "LONG") {
        Ok(Direction::Long)
    } else if str_eq(value, "SHORT") {
        Ok(Direction::Short)
    } else {
        Err(ParseError::IllegalKeyword)
    }
}

pub open spec fn spec_parse_order_type(v: Seq<char>) -> Result<OrderType, ParseError> {
    if v == "market"@ {
        Ok(OrderType::Market)
    } else if v == "limit"@ {
        Ok(OrderType::Limit)
    } else {
        Err(ParseError::IllegalKeyword)
    }
}

pub fn parse_order_type(value: &str) -> (r: Result<OrderType, ParseError>)
    ensures
        r == spec_parse_order_type(value@),
{
    if str_eq(value, "market") {
        Ok(OrderType::Market)
    } else if str_eq(value, "limit") {
        Ok(OrderType::Limit)
    } else {
        Err(ParseError::IllegalKeyword)
    }
}

pub open spec fn spec_parse_margin_mode(v: Seq<char>) -> Result<MarginMode, ParseError> {
    if v == "cross"@ {
        Ok(MarginMode::Cross)
    } else if v == "isolated"@ {
        Ok(MarginMode::Isolated)
    } else {
        Err(ParseError::IllegalKeyword)
    }
}

pub fn parse_margin_mode(value: &str) -> (r: Result<MarginMode, ParseError>)
    ensures
        r == spec_parse_margin_mode(value@),
{
    if str_eq(value, "cross") {
        Ok(MarginMode::Cross)
    } else if str_eq(value, "isolated") {
        Ok(MarginMode::Isolated)
    } else {
        Err(ParseError::IllegalKeyword)
    }
}

pub open spec fn spec_parse_outcome(v: Seq<char>) -> Result<Outcome, ParseError> {
    if v == "YES"@ {
        Ok(Outcome::Yes)
    } else if v == "NO"@ {
        Ok(Outcome::No)
    } else if v == "UP"@ {
        Ok(Outcome::Up)
    } else if v == "DOWN"@ {
        Ok(Outcome::Down)
    } else {
        Err(ParseError::IllegalKeyword)
    }
}

pub fn parse_outcome(value: &str) -> (r: Result<Outcome, ParseError>)
    ensures
        r == spec_parse_outcome(value@),
{
    if str_eq(value, "YES") {
        Ok(Outcome::Yes)
    } else if str_eq(value, "NO") {
        Ok(Outcome::No)
    } else if str_eq(value, "UP") {
        Ok(Outcome::Up)
    } else if str_eq(value, "DOWN") {
        Ok(Outcome::Down)
    } else {
        Err(ParseError::IllegalKeyword)
    }
}

pub open spec fn spec_parse_option_type(v: Seq<char>) -> Result<OptionType, ParseError> {
    if v == "Call"@ {
        Ok(OptionType::Call)
    } else if v == "Put"@ {
        Ok(OptionType::Put)
    } else {
        Err(ParseError::IllegalKeyword)
    }
}

pub fn parse_option_type(value: &str) -> (r: Result<OptionType, ParseError>)
    ensures
        r == spec_parse_option_type(value@),
{
    if str_eq(value, "Call") {
        Ok(OptionType::Call)
    } else if str_eq(value, "Put") {
        Ok(OptionType::Put)
    } else {
        Err(ParseError::IllegalKeyword)
    }
}


// ── Positional and combined fields ───────────────────────────────────────────

pub open spec fn apy_keyword(lang: Language) -> Seq<char> {
    if lang == Language::Zh {
        "年化"@
    } else {
        "APY"@
    }
}

pub open spec fn tvl_keyword(lang: Language) -> Seq<char> {
    if lang == Language::Zh {
        "锁仓"@
    } else {
        "TVL"@
    }
}

pub open spec fn position_keyword(lang: Language) -> Seq<char> {
    if lang == Language::Zh {
        "仓位"@
    } else {
        "Position"@
    }
}

pub open spec fn ttl_keyword(lang: Language) -> Seq<char> {
    if lang == Language::Zh {
        "有效期"@
    } else {
        "valid for"@
    }
}

/// A positional field `<keyword> <value>`: the trimmed value after the
/// keyword; a field without its keyword → `FieldCountError`.
pub open spec fn spec_keyword_value(field: Seq<char>, kw: Seq<char>) -> Result<Seq<char>, ParseError> {
    match strip_prefix(field, kw) {
        None => Err(ParseError::FieldCountError),
        Some(rest) => Ok(trim(rest)),
    }
}

fn keyword_value(field: &str, kw: &str) -> (r: Result<String, ParseError>)
    ensures
        res_str_view(r) == spec_keyword_value(field@, kw@),
{
    let v = chars_of(field);
    let k = chars_of(kw);
    match strip_prefix_chars(v.as_slice(), k.as_slice()) {
        None => Err(ParseError::FieldCountError),
        Some(rest) => {
            let t = trim_chars(rest.as_slice());
            Ok(string_from_chars(t.as_slice()))
        },
    }
}

/// The value of a positional APY field (`APY 18.6%` / `年化 18.6%`), keyword
/// removed.
pub fn strip_apy(field: &str, lang: Language) -> (r: Result<String, ParseError>)
    ensures
        res_str_view(r) == spec_keyword_value(field@, apy_keyword(lang)),
{
    keyword_value(field, if lang == Language::Zh { "年化" } else { "APY" })
}

/// The value of a positional TVL field (`TVL $2.4M` / `锁仓 $2.4M`), keyword
/// removed and otherwise verbatim.
pub fn strip_tvl(field: &str, lang: Language) -> (r: Result<String, ParseError>)
    ensures
        res_str_view(r) == spec_keyword_value(field@, tvl_keyword(lang)),
{
    keyword_value(field, if lang == Language::Zh { "锁仓" } else { "TVL" })
}

/// A positional position field (`Position 5%` / `仓位 5%`).
pub fn parse_position_field(field: &str, lang: Language) -> (r: Result<String, ParseError>)
    ensures
        res_str_view(r) == (match spec_keyword_value(field@, position_keyword(lang)) {
            Err(e) => Err(e),
            Ok(v) => spec_parse_position(v),
        }),
{
    let v = keyword_value(field, if lang == Language::Zh { "仓位" } else { "Position" })?;
    parse_position(v.as_str())
}

/// A positional TTL field (`valid for 48h` / `有效期 48h`).
pub fn parse_ttl_field(field: &str, lang: Language) -> (r: Result<u64, ParseError>)
    ensures
        r == (match spec_keyword_value(field@, ttl_keyword(lang)) {
            Err(e) => Err(e),
            Ok(v) => spec_parse_ttl(v),
        }),
{
    let v = keyword_value(field, if lang == Language::Zh { "有效期" } else { "valid for" })?;
    parse_ttl(v.as_str())
}

/// `<OUTCOME> @<odds>`: no `@` → `FieldCountError`, more than one `@` →
/// `ForbiddenContent`; then the outcome keyword and the odds, each trimmed.
pub open spec fn spec_parse_outcome_odds(v: Seq<char>) -> Result<(Outcome, Seq<char>), ParseError> {
    let parts = split_on(v, '@');
    if parts.len() < 2 {
        Err(ParseError::FieldCountError)
    } else if parts.len() > 2 {
        Err(ParseError::ForbiddenContent)
    } else {
        match spec_parse_outcome(trim(parts[0])) {
            Err(e) => Err(e),
            Ok(o) => match spec_parse_odds(trim(parts[1])) {
                Err(e) => Err(e),
                Ok(x) => Ok((o, x)),
            },
        }
    }
}

pub open spec fn outcome_odds_view(r: Result<(Outcome, String), ParseError>) -> Result<(Outcome, Seq<char>), ParseError> {
    match r {
        Ok((o, s)) => Ok((o, s@)),
        Err(e) => Err(e),
    }
}

/// Parses the prediction `outcome` field: one outcome keyword and the odds,
/// separated by a single `@`.
pub fn parse_outcome_odds(value: &str) -> (r: Result<(Outcome, String), ParseError>)
    ensures
        outcome_odds_view(r) == spec_parse_outcome_odds(value@),
{
    let v = chars_of(value);
    let parts = split_chars(v.as_slice(), '@');
    assert(views(parts@).len() == parts@.len());
    if parts.len() < 2 {
        return Err(ParseError::FieldCountError);
    }
    if parts.len() > 2 {
        return Err(ParseError::ForbiddenContent);
    }
    assert(views(parts@)[0] == parts@[0]@ && views(parts@)[1] == parts@[1]@);
    let o = trim_chars(parts[0].as_slice());
    let os = string_from_chars(o.as_slice());
    let outcome = parse_outcome(os.as_str())?;
    let x = trim_chars(parts[1].as_slice());
    let xs = string_from_chars(x.as_slice());
    let odds = parse_odds(xs.as_str())?;
    Ok((outcome, odds))
}

/// `N%` with `N` at most the decimal `cap`.
pub open spec fn spec_percent_max_dv(v: Seq<char>, cap: (Seq<char>, Seq<char>)) -> Result<Seq<char>, ParseError> {
    match strip_suffix(v, seq!['%']) {
        None => Err(ParseError::InvalidNumber),
        Some(n) => if !is_decimal(n) {
            Err(ParseError::InvalidNumber)
        } else if !dv_le(dec_parts(n), cap) {
            Err(ParseError::OutOfRange)
        } else {
            Ok(plain_text(n))
        },
    }
}

/// A percent value at most `cap`; strips the `%`.
pub fn percent_at_most(value: &str, cap: &Decimal) -> (r: Result<String, ParseError>)
    ensures
        res_str_view(r) == spec_percent_max_dv(value@, cap@),
{
    let v = chars_of(value);
    let pct = percent_digits();
    let num = match strip_suffix_chars(v.as_slice(), pct.as_slice()) {
        Some(n) => n,
        None => return Err(ParseError::InvalidNumber),
    };
    let ns = string_from_chars(num.as_slice());
    let p = match Decimal::parse(ns.as_str()) {
        Some(d) => d,
        None => return Err(ParseError::InvalidNumber),
    };
    if !p.le(cap) {
        return Err(ParseError::OutOfRange);
    }
    Ok(p.to_plain_string())
}

// ── Laws of the number fields ───────────────────────────────────────────────

/// `<` on decimal texts is a strict order, `==` (by value) an equivalence, and
/// two decimals are always in exactly one of `<`, `==`, `>`.
pub proof fn lemma_decimal_text_order(a: Seq<char>, b: Seq<char>, c: Seq<char>)
    ensures
        !spec_less_than(a, a),
        spec_less_than(a, b) ==> !spec_less_than(b, a) && !spec_equal(a, b),
        spec_less_than(a, b) && spec_less_than(b, c) ==> spec_less_than(a, c),
        is_decimal(a) && is_decimal(b) ==> spec_less_than(a, b) || spec_equal(a, b)
            || spec_less_than(b, a),
        spec_equal(a, b) == spec_equal(b, a),
        spec_equal(a, b) && spec_equal(b, c) ==> spec_equal(a, c),
        is_decimal(a) ==> spec_equal(a, a),
{
    crate::decimal::lemma_dv_trichotomy(dec_parts(a), dec_parts(b));
    crate::decimal::lemma_dv_trichotomy(dec_parts(a), dec_parts(a));
    if spec_less_than(a, b) && spec_less_than(b, c) {
        crate::decimal::lemma_dv_lt_transitive(dec_parts(a), dec_parts(b), dec_parts(c));
    }
    if spec_equal(a, b) && spec_equal(b, c) {
        crate::decimal::lemma_dv_eq_transitive(dec_parts(a), dec_parts(b), dec_parts(c));
    }
}

/// A parsed number is canonical and exact: it has the value of the input,
/// and parsing it again gives it back unchanged.
pub proof fn lemma_parse_decimal_canonical(v: Seq<char>)
    ensures
        spec_parse_decimal(v) matches Ok(x) ==> spec_parse_decimal(x) == Ok::<Seq<char>, ParseError>(x)
            && spec_equal(x, v),
{
    if is_decimal(v) {
        crate::decimal::lemma_plain_text(v);
        crate::decimal::lemma_plain_text(plain_text(v));
    }
}

/// A parsed price range is ordered (`lo < hi`) and both bounds are canonical.
pub proof fn lemma_parse_range_ordered(v: Seq<char>)
    ensures
        spec_parse_range(v) matches Ok((lo, hi)) ==> spec_less_than(lo, hi)
            && spec_parse_decimal(lo) == Ok::<Seq<char>, ParseError>(lo)
            && spec_parse_decimal(hi) == Ok::<Seq<char>, ParseError>(hi),
{
    let parts = split_on(v, '-');
    if spec_parse_range(v) is Ok {
        crate::decimal::lemma_plain_text(parts[0]);
        crate::decimal::lemma_plain_text(parts[1]);
        crate::decimal::lemma_dv_lt_by_value(
            dec_parts(plain_text(parts[0])),
            dec_parts(parts[0]),
            dec_parts(plain_text(parts[1])),
            dec_parts(parts[1]),
        );
        lemma_parse_decimal_canonical(parts[0]);
        lemma_parse_decimal_canonical(parts[1]);
    }
}

/// `x` and `y` have equal values, so `x` keeps every bound that `y` has.
proof fn lemma_same_value_bounds(x: (Seq<char>, Seq<char>), y: (Seq<char>, Seq<char>), lo: (Seq<char>, Seq<char>), hi: (Seq<char>, Seq<char>))
    requires
        dv_eq(x, y),
    ensures
        dv_le(y, hi) ==> dv_le(x, hi),
        dv_le(lo, y) ==> dv_le(lo, x),
{
    crate::decimal::lemma_dv_trichotomy(hi, hi);
    crate::decimal::lemma_dv_trichotomy(lo, lo);
    crate::decimal::lemma_dv_trichotomy(x, y);
    crate::decimal::lemma_dv_lt_by_value(x, y, hi, hi);
    crate::decimal::lemma_dv_lt_by_value(lo, lo, x, y);
}

/// A percent at most `cap` is a canonical decimal whose value is at most `cap`.
pub proof fn lemma_percent_max_bounded(v: Seq<char>, cap: (Seq<char>, Seq<char>))
    ensures
        spec_percent_max_dv(v, cap) matches Ok(x) ==> is_decimal(x) && dv_le(dec_parts(x), cap),
{
    match strip_suffix(v, seq!['%']) {
        Some(n) => if is_decimal(n) {
            crate::decimal::lemma_plain_text(n);
            lemma_same_value_bounds(dec_parts(plain_text(n)), dec_parts(n), cap, cap);
        },
        None => {},
    }
}

/// A parsed position is a canonical decimal in `0.1 ..= 20`.
pub proof fn lemma_position_bounded(v: Seq<char>)
    ensures
        spec_parse_position(v) matches Ok(x) ==> is_decimal(x) && dv_le(pos_min(), dec_parts(x))
            && dv_le(dec_parts(x), pos_max()),
{
    match strip_suffix(v, seq!['%']) {
        Some(n) => if is_decimal(n) {
            crate::decimal::lemma_plain_text(n);
            crate::decimal::lemma_dv_trichotomy(dec_parts(n), pos_min());
            crate::decimal::lemma_dv_trichotomy(pos_max(), dec_parts(n));
            lemma_same_value_bounds(dec_parts(plain_text(n)), dec_parts(n), pos_min(), pos_max());
        },
        None => {},
    }
}

/// Parsed odds are a canonical decimal in `0 ..= 1`.
pub proof fn lemma_odds_bounded(v: Seq<char>)
    ensures
        spec_parse_odds(v) matches Ok(x) ==> is_decimal(x) && dv_le(dec_parts(x), dv_one()),
{
    if is_decimal(v) {
        crate::decimal::lemma_plain_text(v);
        lemma_same_value_bounds(dec_parts(plain_text(v)), dec_parts(v), dv_one(), dv_one());
    }
}

/// No field id occurs twice among the entries.
pub open spec fn ids_unique(e: Seq<(FieldId, Seq<char>)>) -> bool {
    forall|i: int, j: int| 0 <= i < j < e.len() ==> (#[trigger] e[i]).0 != (#[trigger] e[j]).0
}

/// A built field map never holds a field twice.
pub proof fn lemma_build_unique(class: AssetClass, lang: Language, raw: Seq<(Seq<char>, Seq<char>)>)
    ensures
        spec_build(class, lang, raw) matches Ok(e) ==> ids_unique(e) && e.len() == raw.len(),
    decreases raw.len(),
{
    if raw.len() > 0 {
        lemma_build_unique(class, lang, raw.drop_last());
        if spec_build(class, lang, raw) is Ok {
            let prev = spec_build(class, lang, raw.drop_last())->Ok_0;
            let id = spec_field_id(class, raw.last().0)->Some_0.0;
            let e = prev.push((id, raw.last().1));
            assert(!entry_ids(prev).contains(id));
            assert(spec_build(class, lang, raw) == Ok::<Seq<(FieldId, Seq<char>)>, ParseError>(e));
            assert forall|i: int, j: int| 0 <= i < j < e.len() implies (#[trigger] e[i]).0 != (#[trigger] e[j]).0 by {
                assert(e[i] == prev[i]);
                if j == e.len() - 1 {
                    assert(entry_ids(prev)[i] == prev[i].0);
                } else {
                    assert(e[j] == prev[j]);
                }
            }
        }
    }
}

/// A field is consumed once: taking it a second time finds nothing, and the
/// other fields stay.
pub proof fn lemma_take_once(e: Seq<(FieldId, Seq<char>)>, id: FieldId)
    requires
        ids_unique(e),
    ensures
        take_val(drop_id(e, id), id) is None,
        ids_unique(drop_id(e, id)),
        forall|other: FieldId| other != id ==> take_val(drop_id(e, id), other) == take_val(e, other),
{
    let ids = entry_ids(e);
    lemma_pos_of(ids, id);
    let p = pos_of(ids, id);
    let d = drop_id(e, id);
    if p >= 0 {
        assert(d == e.remove(p));
        assert forall|k: int| 0 <= k < entry_ids(d).len() implies entry_ids(d)[k] != id by {
            if k < p {
                assert(entry_ids(d)[k] == ids[k]);
            } else {
                assert(entry_ids(d)[k] == e[k + 1].0);
                assert(e[p].0 == ids[p]);
            }
        }
        assert forall|i: int, j: int| 0 <= i < j < d.len() implies (#[trigger] d[i]).0 != (#[trigger] d[j]).0 by {
            let i2 = if i < p { i } else { i + 1 };
            let j2 = if j < p { j } else { j + 1 };
            assert(d[i] == e[i2] && d[j] == e[j2]);
        }
        assert forall|other: FieldId| other != id implies take_val(d, other) == take_val(e, other) by {
            let q = pos_of(ids, other);
            lemma_pos_of(ids, other);
            lemma_pos_of(entry_ids(d), other);
            if q >= 0 {
                if q < p {
                    assert(entry_ids(d)[q] == other);
                    assert forall|k: int| 0 <= k < q implies entry_ids(d)[k] != other by {
                        assert(entry_ids(d)[k] == ids[k]);
                    }
                    lemma_pos_of_at(entry_ids(d), other, q);
                } else {
                    assert(q != p);
                    assert(entry_ids(d)[q - 1] == ids[q]);
                    assert forall|k: int| 0 <= k < q - 1 implies entry_ids(d)[k] != other by {
                        if k < p {
                            assert(entry_ids(d)[k] == ids[k]);
                        } else {
                            assert(entry_ids(d)[k] == ids[k + 1]);
                        }
                    }
                    lemma_pos_of_at(entry_ids(d), other, q - 1);
                }
            } else {
                assert forall|k: int| 0 <= k < entry_ids(d).len() implies entry_ids(d)[k] != other by {
                    if k < p {
                        assert(entry_ids(d)[k] == ids[k]);
                    } else {
                        assert(entry_ids(d)[k] == ids[k + 1]);
                    }
                }
                lemma_pos_of_none(entry_ids(d), other);
            }
        }
        lemma_pos_of_none(entry_ids(d), id);
    }
}


/// The result of a TTL whose number is `n` and whose unit is worth `unit`
/// seconds: the seconds when they lie in 5 minutes to 7 days.
pub open spec fn ttl_of(n: Seq<char>, unit: nat) -> Result<u64, ParseError> {
    if 300 <= digits_val(n) * unit <= 604800 {
        Ok((digits_val(n) * unit) as u64)
    } else {
        Err(ParseError::OutOfRange)
    }
}

/// A TTL counts its number in the unit it names: `N min` is `N` minutes,
/// `N h` is `N` hours and `N d` is `N` days, in seconds, accepted exactly
/// from 5 minutes to 7 days.
pub proof fn lemma_ttl_units(n: Seq<char>)
    requires
        n.len() > 0,
        all_digits(n),
    ensures
        spec_parse_ttl(n + "min"@) == ttl_of(n, 60),
        spec_parse_ttl(n + seq!['h']) == ttl_of(n, 3600),
        spec_parse_ttl(n + seq!['d']) == ttl_of(n, 86400),
{
    reveal_strlit("min");
    let m = n + "min"@;
    assert(m.skip(m.len() - 3) =~= "min"@);
    assert(m.take(m.len() - 3) =~= n);
    let h = n + seq!['h'];
    assert(h.skip(h.len() - 1) =~= seq!['h']);
    assert(h.take(h.len() - 1) =~= n);
    if h.len() >= 3 {
        assert(h.skip(h.len() - 3)[2] == h[h.len() - 1]);
        assert(h.skip(h.len() - 3) != "min"@);
    }
    let d = n + seq!['d'];
    assert(d.skip(d.len() - 1) =~= seq!['d']);
    assert(d.take(d.len() - 1) =~= n);
    if d.len() >= 3 {
        assert(d.skip(d.len() - 3)[2] == d[d.len() - 1]);
        assert(d.skip(d.len() - 3) != "min"@);
    }
    assert(d.skip(d.len() - 1)[0] != seq!['h'][0]);
}

} // verus!
