//! The `signal` command: market-signal chains and list queries, and the
//! trade-signal parse diagnostic.

use vstd::prelude::*;
use crate::text::{all_digit_chars, all_digits, chars_of, digits_val, nat_text, parse_u64_digits, push_chars, push_str, slice_of, string_from_chars, u64_text};
use crate::trade_signal::format::{detect_format, spec_detect_format, InputFormat};

verus! {

/// How the parse diagnostic treats its input.
#[derive(Debug, Clone, Copy, PartialEq, Eq)]
pub enum ParseMode {
    /// Detect the input format, then parse accordingly.
    Auto,
    /// Parse as a bare signal text.
    Text,
    /// Parse as a V2 envelope.
    Envelope,
    /// Only classify the input.
    Detect,
}

/// The `signal` subcommands.
#[derive(Debug, Clone, PartialEq, Eq)]
pub enum SignalCommand {
    /// Supported chains for market signals.
    Chains,
    /// Latest smart-money / KOL / whale signals on a chain.
    List {
        chain: String,
        wallet_type: Option<String>,
        min_amount_usd: Option<String>,
        max_amount_usd: Option<String>,
        min_address_count: Option<String>,
        max_address_count: Option<String>,
        token_address: Option<String>,
        min_market_cap_usd: Option<String>,
        max_market_cap_usd: Option<String>,
        min_liquidity_usd: Option<String>,
        max_liquidity_usd: Option<String>,
        limit: Option<String>,
        cursor: Option<String>,
    },
    /// Parses a trade-signal text or a V2 envelope.
    Parse { text: String, mode: ParseMode },
}

/// Which parser the diagnostic runs.
#[derive(Debug, Clone, Copy, PartialEq, Eq)]
pub enum ParseRoute {
    /// Report the detected format only.
    Detect,
    /// Parse a signal text.
    Text,
    /// Parse a V2 envelope.
    Envelope,
    /// Refuse: the format is unsupported.
    Unsupported,
}

pub open spec fn spec_parse_route(mode: ParseMode, text: Seq<char>) -> ParseRoute {
    match mode {
        ParseMode::Detect => ParseRoute::Detect,
        ParseMode::Text => ParseRoute::Text,
        ParseMode::Envelope => ParseRoute::Envelope,
        ParseMode::Auto => match spec_detect_format(text) {
            InputFormat::V2Text => ParseRoute::Text,
            InputFormat::V1JsonSchema => ParseRoute::Envelope,
            InputFormat::Unsupported => ParseRoute::Unsupported,
        },
    }
}

/// The parser for a mode: the forced one, or in auto mode the one the first
/// character selects (`【` → text, `{` → envelope, anything else refused).
pub fn parse_route(mode: ParseMode, text: &str) -> (r: ParseRoute)
    ensures
        r == spec_parse_route(mode, text@),
{
    match mode {
        ParseMode::Detect => ParseRoute::Detect,
        ParseMode::Text => ParseRoute::Text,
        ParseMode::Envelope => ParseRoute::Envelope,
        ParseMode::Auto => match detect_format(text) {
            InputFormat::V2Text => ParseRoute::Text,
            InputFormat::V1JsonSchema => ParseRoute::Envelope,
            InputFormat::Unsupported => ParseRoute::Unsupported,
        },
    }
}

/// The body of a signal-list request; absent filters are left out.
#[derive(Debug, Clone, PartialEq, Eq)]
pub struct SignalListQuery {
    pub chain_index: String,
    pub limit: String,
    pub cursor: Option<String>,
    pub wallet_type: Option<String>,
    pub min_amount_usd: Option<String>,
    pub max_amount_usd: Option<String>,
    pub min_address_count: Option<String>,
    pub max_address_count: Option<String>,
    pub token_address: Option<String>,
    pub min_market_cap_usd: Option<String>,
    pub max_market_cap_usd: Option<String>,
    pub min_liquidity_usd: Option<String>,
    pub max_liquidity_usd: Option<String>,
}

/// The value of an unsigned integer text as `str::parse::<u64>` reads it: an
/// optional `+`, then one or more digits, at most `u64::MAX`.
pub open spec fn spec_parse_u64(s: Seq<char>) -> Option<nat> {
    let d = if s.len() > 0 && s[0] == '+' { s.skip(1) } else { s };
    if d.len() == 0 || !all_digits(d) || digits_val(d) > u64::MAX {
        None
    } else {
        Some(digits_val(d))
    }
}

/// Reads an unsigned integer (see [`spec_parse_u64`]).
pub fn parse_u64(s: &str) -> (r: Option<u64>)
    ensures
        match spec_parse_u64(s@) {
            Some(n) => r == Some(n as u64),
            None => r is None,
        },
{
    let v = chars_of(s);
    let d = if v.len() > 0 && v[0] == '+' { slice_of(v.as_slice(), 1, v.len()) } else { slice_of(v.as_slice(), 0, v.len()) };
    assert(d@ =~= (if s@.len() > 0 && s@[0] == '+' { s@.skip(1) } else { s@ }));
    if d.len() == 0 || !all_digit_chars(d.as_slice()) {
        return None;
    }
    parse_u64_digits(d.as_slice())
}

/// The check of a requested page size: a number in `1 ..= 100`.
pub open spec fn spec_limit_check(limit: Option<Seq<char>>) -> Result<(), Seq<char>> {
    match limit {
        None => Ok(()),
        Some(s) => match spec_parse_u64(s) {
            None => Err("--limit must be a number between 1 and 100"@),
            Some(n) => if 1 <= n <= 100 {
                Ok(())
            } else {
                Err("--limit must be between 1 and 100, got "@ + nat_text(n))
            },
        },
    }
}

pub open spec fn opt_seq(o: Option<String>) -> Option<Seq<char>> {
    match o {
        Some(s) => Some(s@),
        None => None,
    }
}

/// Builds a signal-list request: the page size is checked and defaults to
/// `"20"` (kept as written otherwise); every filter is passed through.
#[allow(clippy::too_many_arguments)]
pub fn list_query(
    chain_index: &str,
    wallet_type: Option<String>,
    min_amount_usd: Option<String>,
    max_amount_usd: Option<String>,
    min_address_count: Option<String>,
    max_address_count: Option<String>,
    token_address: Option<String>,
    min_market_cap_usd: Option<String>,
    max_market_cap_usd: Option<String>,
    min_liquidity_usd: Option<String>,
    max_liquidity_usd: Option<String>,
    limit: Option<String>,
    cursor: Option<String>,
) -> (r: Result<SignalListQuery, String>)
    ensures
        match spec_limit_check(opt_seq(limit)) {
            Err(m) => r matches Err(x) && x@ == m,
            Ok(()) => r matches Ok(q) && q.chain_index@ == chain_index@ && q.limit@ == (match limit {
                Some(l) => l@,
                None => "20"@,
            }) && q.cursor == cursor && q.wallet_type == wallet_type && q.min_amount_usd == min_amount_usd
                && q.max_amount_usd == max_amount_usd && q.min_address_count == min_address_count
                && q.max_address_count == max_address_count && q.token_address == token_address
                && q.min_market_cap_usd == min_market_cap_usd && q.max_market_cap_usd == max_market_cap_usd
                && q.min_liquidity_usd == min_liquidity_usd && q.max_liquidity_usd == max_liquidity_usd,
        },
{
    let limit_text = match &limit {
        Some(s) => {
            let n = match parse_u64(s.as_str()) {
                Some(n) => n,
                None => return Err(String::from_str("--limit must be a number between 1 and 100")),
            };
            if n < 1 || n > 100 {
                let mut m: Vec<char> = Vec::new();
                push_str(&mut m, "--limit must be between 1 and 100, got ");
                let d = u64_text(n);
                push_chars(&mut m, d.as_slice());
                return Err(string_from_chars(m.as_slice()));
            }
            s.clone()
        },
        None => String::from_str("20"),
    };
    Ok(
        SignalListQuery {
            chain_index: String::from_str(chain_index),
            limit: limit_text,
            cursor,
            wallet_type,
            min_amount_usd,
            max_amount_usd,
            min_address_count,
            max_address_count,
            token_address,
            min_market_cap_usd,
            max_market_cap_usd,
            min_liquidity_usd,
            max_liquidity_usd,
        },
    )
}


/// A forced mode is obeyed whatever the input; in auto mode an input opening
/// with `【` is parsed as a signal text, one opening with `{` as an envelope,
/// and anything else is refused.
pub proof fn lemma_route_by_mode(mode: ParseMode, text: Seq<char>)
    ensures
        mode == ParseMode::Text ==> spec_parse_route(mode, text) == ParseRoute::Text,
        mode == ParseMode::Envelope ==> spec_parse_route(mode, text) == ParseRoute::Envelope,
        mode == ParseMode::Detect ==> spec_parse_route(mode, text) == ParseRoute::Detect,
        mode == ParseMode::Auto && text.len() > 0 && text[0] == '\u{3010}' ==> spec_parse_route(mode, text)
            == ParseRoute::Text,
        mode == ParseMode::Auto && text.len() > 0 && text[0] == '{' ==> spec_parse_route(mode, text)
            == ParseRoute::Envelope,
        mode == ParseMode::Auto && !(text.len() > 0 && (text[0] == '\u{3010}' || text[0] == '{'))
            ==> spec_parse_route(mode, text) == ParseRoute::Unsupported,
{
}

/// The page size of a list request is accepted exactly from 1 to 100: a
/// plain numeral passes the check exactly when its value lies in `1..=100`,
/// and no page size at all always passes (the default of 20).
pub proof fn lemma_limit_bounds(s: Seq<char>)
    requires
        s.len() > 0,
        all_digits(s),
        digits_val(s) <= u64::MAX,
    ensures
        spec_limit_check(Some(s)) is Ok <==> 1 <= digits_val(s) <= 100,
        spec_limit_check(None) is Ok,
{
    assert(s[0] != '+');
}

} // verus!
