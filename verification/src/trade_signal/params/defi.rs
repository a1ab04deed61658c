//! DeFi parser, in two forms.
//!
//! The positional row has eight fields:
//! `chain | <protocolPool> | APY <pct> | TVL <compact> | <token> | <redeemTerms> | Position N% | valid for <ttl>`
//! (Chinese keywords `年化`, `锁仓`, `仓位`, `有效期` under a Chinese header).
//! The labeled form carries `chain`, `protocolPool`, `apy`, `tvl`, `token` and
//! `redeemTerms` as ordinary fields.
//!
//! `apy` is a non-negative percent; `tvl` is a compact amount kept verbatim;
//! `chain`, `protocolPool`, `token` and `redeemTerms` are kept as written.
//! Executing a DeFi signal always means a deposit.

use vstd::prelude::*;
use crate::trade_signal::error::ParseError;
use crate::trade_signal::fields::{
    apy_keyword, drop_id, parse_percent_nonneg, parse_position_field, parse_ttl_field,
    position_keyword, require_val, spec_keyword_value, spec_parse_percent_nonneg,
    spec_parse_position, spec_parse_ttl, strip_apy, strip_tvl, ttl_keyword, tvl_keyword,
    FieldId, FieldMap,
};
use crate::trade_signal::{strings_view, DefiParams, DefiParamsV, ExecutionSemantics, Language, SignalParams, SignalParamsV};

verus! {

/// The DeFi parameters, position and TTL of a positional row.
pub open spec fn spec_defi_row(f: Seq<Seq<char>>, lang: Language) -> Result<(DefiParamsV, Seq<char>, u64), ParseError> {
    if f.len() != 8 {
        Err(ParseError::FieldCountError)
    } else {
        match spec_keyword_value(f[2], apy_keyword(lang)) {
            Err(e) => Err(e),
            Ok(a) => match spec_parse_percent_nonneg(a) {
                Err(e) => Err(e),
                Ok(apy) => match spec_keyword_value(f[3], tvl_keyword(lang)) {
                    Err(e) => Err(e),
                    Ok(tvl) => match spec_keyword_value(f[6], position_keyword(lang)) {
                        Err(e) => Err(e),
                        Ok(p) => match spec_parse_position(p) {
                            Err(e) => Err(e),
                            Ok(position) => match spec_keyword_value(f[7], ttl_keyword(lang)) {
                                Err(e) => Err(e),
                                Ok(t) => match spec_parse_ttl(t) {
                                    Err(e) => Err(e),
                                    Ok(ttl) => Ok(
                                        (
                                            DefiParamsV {
                                                chain: f[0],
                                                protocol_pool: f[1],
                                                apy,
                                                tvl,
                                                token: f[4],
                                                redeem_terms: f[5],
                                                execution_semantics: ExecutionSemantics::Deposit,
                                            },
                                            position,
                                            ttl,
                                        ),
                                    ),
                                },
                            },
                        },
                    },
                },
            },
        }
    }
}

pub open spec fn row_result_view(r: Result<(SignalParams, String, u64), ParseError>) -> Result<(SignalParamsV, Seq<char>, u64), ParseError> {
    match r {
        Ok((p, s, t)) => Ok((p@, s@, t)),
        Err(e) => Err(e),
    }
}

pub open spec fn defi_row_params(r: Result<(DefiParamsV, Seq<char>, u64), ParseError>) -> Result<(SignalParamsV, Seq<char>, u64), ParseError> {
    match r {
        Ok((d, s, t)) => Ok((SignalParamsV::Defi(d), s, t)),
        Err(e) => Err(e),
    }
}

/// Parses a positional DeFi row: the parameters, the position percent and the
/// TTL in seconds.
pub fn parse(fields: &[String], lang: Language) -> (r: Result<(SignalParams, String, u64), ParseError>)
    ensures
        row_result_view(r) == defi_row_params(spec_defi_row(strings_view(fields@), lang)),
{
    let ghost f = strings_view(fields@);
    if fields.len() != 8 {
        return Err(ParseError::FieldCountError);
    }
    let chain = fields[0].clone();
    let protocol_pool = fields[1].clone();
    let apy = parse_percent_nonneg(strip_apy(fields[2].as_str(), lang)?.as_str())?;
    let tvl = strip_tvl(fields[3].as_str(), lang)?;
    let token = fields[4].clone();
    let redeem_terms = fields[5].clone();
    let position_pct = parse_position_field(fields[6].as_str(), lang)?;
    let ttl_sec = parse_ttl_field(fields[7].as_str(), lang)?;
    assert(f[0] == chain@ && f[1] == protocol_pool@ && f[4] == token@ && f[5] == redeem_terms@);
    Ok(
        (
            SignalParams::Defi(
                DefiParams {
                    chain,
                    protocol_pool,
                    apy,
                    tvl,
                    token,
                    redeem_terms,
                    execution_semantics: ExecutionSemantics::Deposit,
                },
            ),
            position_pct,
            ttl_sec,
        ),
    )
}

/// The DeFi parameters of the labeled form, and the entries left over.
pub open spec fn spec_defi(e: Seq<(FieldId, Seq<char>)>) -> (Result<DefiParamsV, ParseError>, Seq<(FieldId, Seq<char>)>) {
    let e1 = drop_id(e, FieldId::Chain);
    let e2 = drop_id(e1, FieldId::ProtocolPool);
    let e3 = drop_id(e2, FieldId::Apy);
    let e4 = drop_id(e3, FieldId::Tvl);
    let e5 = drop_id(e4, FieldId::Token);
    let e6 = drop_id(e5, FieldId::RedeemTerms);
    match require_val(e, FieldId::Chain) {
        Err(x) => (Err(x), e1),
        Ok(chain) => match require_val(e1, FieldId::ProtocolPool) {
            Err(x) => (Err(x), e2),
            Ok(protocol_pool) => match require_val(e2, FieldId::Apy) {
                Err(x) => (Err(x), e3),
                Ok(av) => match spec_parse_percent_nonneg(av) {
                    Err(x) => (Err(x), e3),
                    Ok(apy) => match require_val(e3, FieldId::Tvl) {
                        Err(x) => (Err(x), e4),
                        Ok(tvl) => match require_val(e4, FieldId::Token) {
                            Err(x) => (Err(x), e5),
                            Ok(token) => match require_val(e5, FieldId::RedeemTerms) {
                                Err(x) => (Err(x), e6),
                                Ok(redeem_terms) => (
                                    Ok(
                                        DefiParamsV {
                                            chain,
                                            protocol_pool,
                                            apy,
                                            tvl,
                                            token,
                                            redeem_terms,
                                            execution_semantics: ExecutionSemantics::Deposit,
                                        },
                                    ),
                                    e6,
                                ),
                            },
                        },
                    },
                },
            },
        },
    }
}

pub open spec fn defi_result_view(r: Result<DefiParams, ParseError>) -> Result<DefiParamsV, ParseError> {
    match r {
        Ok(p) => Ok(p@),
        Err(e) => Err(e),
    }
}

/// Reads the labeled DeFi parameters from the field map.
pub fn parse_labeled(fm: &mut FieldMap) -> (r: Result<DefiParams, ParseError>)
    ensures
        defi_result_view(r) == spec_defi(old(fm)@).0,
        final(fm)@ == spec_defi(old(fm)@).1,
{
    let chain = fm.require(FieldId::Chain)?;
    let protocol_pool = fm.require(FieldId::ProtocolPool)?;
    let apy = parse_percent_nonneg(fm.require(FieldId::Apy)?.as_str())?;
    let tvl = fm.require(FieldId::Tvl)?;
    let token = fm.require(FieldId::Token)?;
    let redeem_terms = fm.require(FieldId::RedeemTerms)?;
    Ok(
        DefiParams {
            chain,
            protocol_pool,
            apy,
            tvl,
            token,
            redeem_terms,
            execution_semantics: ExecutionSemantics::Deposit,
        },
    )
}


/// A positional row that parses keeps its text fields where they stand: the
/// chain first, the protocol pool second, the token fifth and the redemption
/// terms sixth, and it always means a deposit.
pub proof fn lemma_defi_row_fields(f: Seq<Seq<char>>, lang: Language)
    ensures
        spec_defi_row(f, lang) matches Ok((d, _, _)) ==> {
            &&& f.len() == 8
            &&& d.chain == f[0]
            &&& d.protocol_pool == f[1]
            &&& d.token == f[4]
            &&& d.redeem_terms == f[5]
            &&& d.execution_semantics == ExecutionSemantics::Deposit
        },
{
}

} // verus!
