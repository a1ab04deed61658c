//! The decisions of the buyer's inbound validation chain.
//!
//! The chain runs in a fixed order: job id → structure → freshness →
//! subscription → wallet → type enabled → grant cap (resolving the holding of
//! a percent sell first) → command → idempotency marker, and yields either an
//! [`ExecutionCard`] (every check passed) or a [`NotifyOnly`] (any degrade).
//! The steps that reach the network, the clock or the file system are run by
//! the caller; the decisions between them are here.

use vstd::prelude::*;
use crate::decimal::{plain, Decimal};
use crate::text::{chars_of, str_eq};
use super::card::{make_notify_only, ExecutionCard, NotifyOnly, NOTIFY_TEMPLATE};
use super::chains::{chain_family, spec_chain_family};
use super::grants::{is_safe_id, job_id_is_safe};
use super::schema::{or_empty, AmountUnit, DefiAction, Side, TypedParams};
use super::{spec_reason_name, AutoTradeError, AutoTradeErrorV, DegradeReason};

verus! {

/// The runtime inputs of the buyer's inbound chain.
pub struct PipelineInput<'a> {
    /// The signal line's JSON.
    pub signal_json: &'a str,
    pub job_id: &'a str,
    pub agent_id: &'a str,
    /// When the buyer received the delivery (milliseconds since the epoch).
    pub received_at_ms: u64,
    /// Where the deliverable was saved; surfaced only on the notify-only path.
    pub saved_path: &'a str,
}

/// The result of the chain: exactly one of a card and a notify-only record.
pub enum PipelineOutcome {
    Card(Box<ExecutionCard>),
    Notify(NotifyOnly),
}

/// The age of a signal in milliseconds, measured from the earlier of its
/// signal time and its receipt; a time in the future counts as age 0.
pub open spec fn signal_age_ms(signal_time_ms: u64, received_at_ms: u64, now_ms: u64) -> int {
    let effective = if signal_time_ms <= received_at_ms { signal_time_ms } else { received_at_ms };
    if now_ms >= effective {
        now_ms - effective
    } else {
        0
    }
}

/// The time to live in milliseconds, capped at `u64::MAX`.
pub open spec fn ttl_limit_ms(ttl_sec: u64) -> int {
    if ttl_sec * 1000 > u64::MAX {
        u64::MAX as int
    } else {
        ttl_sec * 1000
    }
}

/// Whether a signal has outlived its time to live.
pub open spec fn is_expired(signal_time_ms: u64, received_at_ms: u64, now_ms: u64, ttl_sec: u64) -> bool {
    signal_age_ms(signal_time_ms, received_at_ms, now_ms) > ttl_limit_ms(ttl_sec)
}

pub open spec fn unit_result_view(r: Result<(), AutoTradeError>) -> Result<(), AutoTradeErrorV> {
    match r {
        Ok(()) => Ok(()),
        Err(e) => Err(e@),
    }
}

/// Freshness: a signal is expired when its age exceeds its time to live;
/// an age equal to the time to live is still fresh.
pub fn check_freshness(signal_time_ms: u64, received_at_ms: u64, now_ms: u64, ttl_sec: u64) -> (r: Result<(), AutoTradeError>)
    ensures
        unit_result_view(r) == (if is_expired(signal_time_ms, received_at_ms, now_ms, ttl_sec) {
            Err(AutoTradeErrorV::Degrade(DegradeReason::FreshnessExpired))
        } else {
            Ok(())
        }),
{
    let effective = if signal_time_ms <= received_at_ms { signal_time_ms } else { received_at_ms };
    let age_ms = now_ms.saturating_sub(effective);
    let limit = match ttl_sec.checked_mul(1000) {
        Some(l) => l,
        None => u64::MAX,
    };
    if age_ms > limit {
        return Err(AutoTradeError::Degrade(DegradeReason::FreshnessExpired));
    }
    Ok(())
}

/// The job id is used as a path component, so it must be a safe identifier
/// (the delivery id's charset); otherwise `invalid_job_id`.
pub fn check_job_id(job_id: &str) -> (r: Result<(), AutoTradeError>)
    ensures
        unit_result_view(r) == (if is_safe_id(job_id@) {
            Ok(())
        } else {
            Err(AutoTradeErrorV::Degrade(DegradeReason::InvalidJobId))
        }),
{
    if job_id_is_safe(job_id) {
        Ok(())
    } else {
        Err(AutoTradeError::Degrade(DegradeReason::InvalidJobId))
    }
}

/// What the grant check is run against: venue, action and spend, and for a
/// DEX percent sell the resolved absolute amount that the command then uses.
#[derive(Debug, Clone, PartialEq, Eq)]
pub struct GrantTarget {
    pub venue: &'static str,
    pub action: &'static str,
    pub amount: String,
    pub resolved_dex_amount: Option<String>,
}

/// The view of a grant target: venue, action, spend, resolved amount.
pub open spec fn target_view(t: GrantTarget) -> (Seq<char>, Seq<char>, Seq<char>, Option<Seq<char>>) {
    (
        t.venue@,
        t.action@,
        t.amount@,
        match t.resolved_dex_amount {
            Some(s) => Some(s@),
            None => None,
        },
    )
}

/// Whether the signal is a DEX sell of a percent of the holding.
pub open spec fn is_pct_sell(typed: TypedParams) -> bool {
    typed matches TypedParams::Dex(p) && p.side == Side::Sell && p.amount_unit == AmountUnit::Pct
}

/// The percent to resolve against the holding before the grant check: only for
/// a DEX percent sell, whose amount must then be a decimal (else
/// `pct_holding_fail`).
pub fn pct_to_resolve(typed: &TypedParams) -> (r: Result<Option<Decimal>, AutoTradeError>)
    ensures
        !is_pct_sell(*typed) ==> r matches Ok(None),
        is_pct_sell(*typed) ==> match *typed {
            TypedParams::Dex(p) => if crate::decimal::is_decimal(p.amount@) {
                r matches Ok(Some(d)) && d@ == crate::decimal::dec_parts(p.amount@)
            } else {
                r matches Err(e) && e@ == AutoTradeErrorV::Degrade(DegradeReason::PctHoldingFail)
            },
            _ => false,
        },
{
    match typed {
        TypedParams::Dex(p) => match (p.side, p.amount_unit) {
            (Side::Sell, AmountUnit::Pct) => match Decimal::parse(p.amount.as_str()) {
                Some(d) => Ok(Some(d)),
                None => Err(AutoTradeError::Degrade(DegradeReason::PctHoldingFail)),
            },
            _ => Ok(None),
        },
        _ => Ok(None),
    }
}

/// The grant-check target of a signal. A DEX buy or base sell spends its
/// amount; a percent sell spends the resolved holding amount (absent →
/// `pct_holding_fail`); a quote sell is a structural reject; a DeFi deposit
/// spends its amount (empty when absent); withdraw and claim spend nothing and
/// are not gated; a prediction-market order spends its amount.
pub open spec fn spec_grant_target(typed: TypedParams, holding: Option<(Seq<char>, Seq<char>)>) -> Result<
    Option<(Seq<char>, Seq<char>, Seq<char>, Option<Seq<char>>)>,
    AutoTradeErrorV,
> {
    match typed {
        TypedParams::Dex(p) => if p.side == Side::Buy {
            Ok(Some(("dex"@, "buy"@, p.amount@, None)))
        } else if p.amount_unit == AmountUnit::Base {
            Ok(Some(("dex"@, "sell"@, p.amount@, None)))
        } else if p.amount_unit == AmountUnit::Pct {
            match holding {
                Some(h) => Ok(Some(("dex"@, "sell"@, plain(h), Some(plain(h))))),
                None => Err(AutoTradeErrorV::Degrade(DegradeReason::PctHoldingFail)),
            }
        } else {
            Err(AutoTradeErrorV::Degrade(DegradeReason::StructureReject))
        },
        TypedParams::Defi(p) => if p.action == DefiAction::Deposit {
            Ok(Some(("defi"@, "buy"@, or_empty(p.amount), None)))
        } else {
            Ok(None)
        },
        TypedParams::Polymarket(p) => Ok(
            Some(("polymarket"@, if p.side == Side::Buy { "buy"@ } else { "sell"@ }, p.amount@, None)),
        ),
    }
}

pub open spec fn target_result_view(r: Result<Option<GrantTarget>, AutoTradeError>) -> Result<
    Option<(Seq<char>, Seq<char>, Seq<char>, Option<Seq<char>>)>,
    AutoTradeErrorV,
> {
    match r {
        Ok(Some(t)) => Ok(Some(target_view(t))),
        Ok(None) => Ok(None),
        Err(e) => Err(e@),
    }
}

pub open spec fn holding_view(h: Option<&Decimal>) -> Option<(Seq<char>, Seq<char>)> {
    match h {
        Some(d) => Some(d@),
        None => None,
    }
}

/// Determines the grant-check target; `holding` is the absolute amount that a
/// DEX percent sell resolved to.
pub fn grant_target(typed: &TypedParams, holding: Option<&Decimal>) -> (r: Result<Option<GrantTarget>, AutoTradeError>)
    ensures
        target_result_view(r) == spec_grant_target(*typed, holding_view(holding)),
{
    match typed {
        TypedParams::Dex(p) => match (p.side, p.amount_unit) {
            (Side::Buy, _) => Ok(
                Some(
                    GrantTarget {
                        venue: "dex",
                        action: "buy",
                        amount: p.amount.clone(),
                        resolved_dex_amount: None,
                    },
                ),
            ),
            (Side::Sell, AmountUnit::Base) => Ok(
                Some(
                    GrantTarget {
                        venue: "dex",
                        action: "sell",
                        amount: p.amount.clone(),
                        resolved_dex_amount: None,
                    },
                ),
            ),
            (Side::Sell, AmountUnit::Pct) => match holding {
                Some(abs) => {
                    let a = abs.to_plain_string();
                    let b = abs.to_plain_string();
                    Ok(Some(GrantTarget { venue: "dex", action: "sell", amount: a, resolved_dex_amount: Some(b) }))
                },
                None => Err(AutoTradeError::Degrade(DegradeReason::PctHoldingFail)),
            },
            (Side::Sell, AmountUnit::Quote) => Err(AutoTradeError::Degrade(DegradeReason::StructureReject)),
        },
        TypedParams::Defi(p) => match p.action {
            DefiAction::Deposit => {
                let amount = match &p.amount {
                    Some(a) => a.clone(),
                    None => String::new(),
                };
                Ok(Some(GrantTarget { venue: "defi", action: "buy", amount, resolved_dex_amount: None }))
            },
            DefiAction::Withdraw | DefiAction::Claim => Ok(None),
        },
        TypedParams::Polymarket(p) => {
            let action = match p.side {
                Side::Buy => "buy",
                Side::Sell => "sell",
            };
            Ok(
                Some(
                    GrantTarget {
                        venue: "polymarket",
                        action,
                        amount: p.amount.clone(),
                        resolved_dex_amount: None,
                    },
                ),
            )
        },
    }
}

/// The chain index that governs the command's `--chain`, if any.
pub fn signal_chain_index(typed: &TypedParams) -> (r: Option<&str>)
    ensures
        match *typed {
            TypedParams::Dex(p) => r matches Some(s) && s@ == p.chain_index@,
            TypedParams::Defi(p) => match p.chain_index {
                Some(c) => r matches Some(s) && s@ == c@,
                None => r is None,
            },
            TypedParams::Polymarket(_) => r is None,
        },
{
    match typed {
        TypedParams::Dex(p) => Some(p.chain_index.as_str()),
        TypedParams::Defi(p) => match &p.chain_index {
            Some(c) => Some(c.as_str()),
            None => None,
        },
        TypedParams::Polymarket(_) => None,
    }
}

/// The outcome of the chain: the card when every check passed; otherwise a
/// notify-only record with the degrade reason, a structural reject reading as
/// `structure_reject`.
pub fn outcome_of(result: Result<ExecutionCard, AutoTradeError>, saved_path: &str) -> (r: PipelineOutcome)
    ensures
        match result {
            Ok(card) => r matches PipelineOutcome::Card(c) && *c == card,
            Err(e) => r matches PipelineOutcome::Notify(n) && n.auto_trade && !n.executed
                && n.saved_path@ == saved_path@ && n.notification_template@ == NOTIFY_TEMPLATE@
                && n.reason@ == match e {
                AutoTradeError::Degrade(d) => spec_reason_name(d),
                AutoTradeError::Reject(_) => "structure_reject"@,
            },
        },
{
    match result {
        Ok(card) => PipelineOutcome::Card(Box::new(card)),
        Err(AutoTradeError::Degrade(reason)) => PipelineOutcome::Notify(make_notify_only(saved_path, reason.as_str())),
        Err(AutoTradeError::Reject(_)) => PipelineOutcome::Notify(
            make_notify_only(saved_path, DegradeReason::StructureReject.as_str()),
        ),
    }
}

/// Freshness: a signal whose signal time and receipt are both not in the past
/// is fresh; an age equal to the time to live is still fresh; and once expired
/// a signal stays expired as time goes on.
pub proof fn lemma_freshness(signal_time_ms: u64, received_at_ms: u64, now_ms: u64, later_ms: u64, ttl_sec: u64)
    ensures
        signal_time_ms >= now_ms && received_at_ms >= now_ms ==> !is_expired(signal_time_ms, received_at_ms, now_ms, ttl_sec),
        signal_age_ms(signal_time_ms, received_at_ms, now_ms) == ttl_limit_ms(ttl_sec) ==> !is_expired(signal_time_ms, received_at_ms, now_ms, ttl_sec),
        is_expired(signal_time_ms, received_at_ms, now_ms, ttl_sec) && now_ms <= later_ms ==> is_expired(signal_time_ms, received_at_ms, later_ms, ttl_sec),
{
}

/// One address of a wallet account on a chain.
#[derive(Debug, Clone, PartialEq, Eq)]
pub struct WalletAddress {
    pub chain_index: String,
    pub address: String,
}

/// A wallet account and its addresses.
#[derive(Debug, Clone, PartialEq, Eq)]
pub struct WalletAccount {
    pub account_id: String,
    pub address_list: Vec<WalletAddress>,
}

/// The index of the first element satisfying `p`, or `-1`.
pub open spec fn first_where<A>(s: Seq<A>, p: spec_fn(A) -> bool) -> int
    decreases s.len(),
{
    if s.len() == 0 {
        -1
    } else if p(s[0]) {
        0
    } else {
        let r = first_where(s.drop_first(), p);
        if r < 0 {
            -1
        } else {
            r + 1
        }
    }
}

proof fn lemma_first_where_bounds<A>(s: Seq<A>, p: spec_fn(A) -> bool)
    ensures
        -1 <= first_where(s, p) < s.len(),
        first_where(s, p) >= 0 ==> p(s[first_where(s, p)]),
    decreases s.len(),
{
    if s.len() > 0 && !p(s[0]) {
        lemma_first_where_bounds(s.drop_first(), p);
        let r = first_where(s.drop_first(), p);
        if r >= 0 {
            assert(s[r + 1] == s.drop_first()[r]);
        }
    }
}

proof fn lemma_first_where_step<A>(s: Seq<A>, p: spec_fn(A) -> bool, i: int)
    requires
        0 <= i < s.len(),
        forall|j: int| 0 <= j < i ==> !p(#[trigger] s[j]),
    ensures
        p(s[i]) ==> first_where(s, p) == i,
        !p(s[i]) && i + 1 == s.len() ==> first_where(s, p) == -1,
    decreases i,
{
    if i > 0 {
        assert forall|j: int| 0 <= j < i - 1 implies !p(#[trigger] s.drop_first()[j]) by {
            assert(s.drop_first()[j] == s[j + 1]);
        }
        assert(s.drop_first()[i - 1] == s[i]);
        assert(!p(s[0]));
        lemma_first_where_step(s.drop_first(), p, i - 1);
    } else if !p(s[0]) && s.len() == 1 {
        assert(s.drop_first().len() == 0);
        assert(first_where(s.drop_first(), p) == -1);
    }
}

/// The account with the given id.
pub open spec fn has_id(id: Seq<char>) -> spec_fn(WalletAccount) -> bool {
    |a: WalletAccount| a.account_id@ == id
}

/// An address on exactly the given chain.
pub open spec fn on_chain(index: Seq<char>) -> spec_fn(WalletAddress) -> bool {
    |w: WalletAddress| w.chain_index@ == index
}

/// An address on a chain of the same family as the given chain.
pub open spec fn in_family(index: Seq<char>) -> spec_fn(WalletAddress) -> bool {
    |w: WalletAddress| spec_chain_family(w.chain_index@) == spec_chain_family(index)
}

/// The active wallet address for a chain: in the selected account (none when
/// no account is selected or it is unknown), the first address on exactly
/// that chain, else the first on a chain of the same family; an empty address
/// counts as none.
pub open spec fn spec_wallet_address(selected: Seq<char>, accounts: Seq<WalletAccount>, chain_index: Seq<char>) -> Option<Seq<char>> {
    if selected.len() == 0 {
        None
    } else {
        let k = first_where(accounts, has_id(selected));
        if k < 0 {
            None
        } else {
            let list = accounts[k].address_list@;
            let e = first_where(list, on_chain(chain_index));
            let f = first_where(list, in_family(chain_index));
            let pick = if e >= 0 { e } else { f };
            if pick < 0 || list[pick].address@.len() == 0 {
                None
            } else {
                Some(list[pick].address@)
            }
        }
    }
}

/// The position that `first_where` names, as an index.
pub open spec fn found(r: Option<usize>, w: int) -> bool {
    match r {
        Some(i) => i as int == w,
        None => w == -1,
    }
}

fn find_account(accounts: &[WalletAccount], selected: &str) -> (r: Option<usize>)
    ensures
        found(r, first_where(accounts@, has_id(selected@))),
{
    let ghost p = has_id(selected@);
    let mut i: usize = 0;
    while i < accounts.len()
        invariant
            i <= accounts@.len(),
            p == has_id(selected@),
            forall|j: int| 0 <= j < i ==> !p(#[trigger] accounts@[j]),
        decreases accounts@.len() - i,
    {
        let hit = str_eq(accounts[i].account_id.as_str(), selected);
        proof {
            lemma_first_where_step(accounts@, p, i as int);
        }
        if hit {
            return Some(i);
        }
        i = i + 1;
    }
    proof {
        if accounts@.len() > 0 {
            lemma_first_where_step(accounts@, p, accounts@.len() - 1);
        }
    }
    None
}

fn find_address(list: &Vec<WalletAddress>, chain_index: &str, by_family: bool) -> (r: Option<usize>)
    ensures
        !by_family ==> found(r, first_where(list@, on_chain(chain_index@))),
        by_family ==> found(r, first_where(list@, in_family(chain_index@))),
{
    let ghost p = if by_family { in_family(chain_index@) } else { on_chain(chain_index@) };
    let family = chain_family(chain_index);
    let mut i: usize = 0;
    while i < list.len()
        invariant
            i <= list@.len(),
            family@ == spec_chain_family(chain_index@),
            p == (if by_family { in_family(chain_index@) } else { on_chain(chain_index@) }),
            forall|j: int| 0 <= j < i ==> !p(#[trigger] list@[j]),
        decreases list@.len() - i,
    {
        let hit = if by_family {
            str_eq(chain_family(list[i].chain_index.as_str()), family)
        } else {
            str_eq(list[i].chain_index.as_str(), chain_index)
        };
        proof {
            lemma_first_where_step(list@, p, i as int);
        }
        if hit {
            return Some(i);
        }
        i = i + 1;
    }
    proof {
        if list@.len() > 0 {
            lemma_first_where_step(list@, p, list@.len() - 1);
        }
    }
    None
}

/// The active wallet address for a chain (see [`spec_wallet_address`]).
pub fn resolve_wallet_address(selected_account_id: &str, accounts: &[WalletAccount], chain_index: &str) -> (r: Option<String>)
    ensures
        match spec_wallet_address(selected_account_id@, accounts@, chain_index@) {
            Some(a) => r matches Some(x) && x@ == a,
            None => r is None,
        },
{
    if chars_of(selected_account_id).len() == 0 {
        return None;
    }
    let k = match find_account(accounts, selected_account_id) {
        Some(k) => k,
        None => return None,
    };
    proof {
        lemma_first_where_bounds(accounts@, has_id(selected_account_id@));
    }
    let list = &accounts[k].address_list;
    proof {
        lemma_first_where_bounds(list@, on_chain(chain_index@));
        lemma_first_where_bounds(list@, in_family(chain_index@));
    }
    let pick = match find_address(list, chain_index, false) {
        Some(e) => e,
        None => match find_address(list, chain_index, true) {
            Some(f) => f,
            None => return None,
        },
    };
    let addr = &list[pick].address;
    if chars_of(addr.as_str()).len() == 0 {
        return None;
    }
    Some(addr.clone())
}


/// A grant check is run against the order's own direction and spend: a DEX
/// or prediction-market order is always gated (never `Ok(None)`), on its own
/// venue, with the action `buy` exactly when the order buys and `sell`
/// exactly when it sells, spending its stated amount unless it sells a
/// percent of the holding (then the resolved holding). A DeFi order is gated
/// only as a deposit, which buys on the `defi` venue.
pub proof fn lemma_grant_target_matches_order(typed: TypedParams, holding: Option<(Seq<char>, Seq<char>)>)
    ensures
        typed matches TypedParams::Dex(p) ==> !(spec_grant_target(typed, holding) matches Ok(None)),
        typed matches TypedParams::Polymarket(p) ==> spec_grant_target(typed, holding) is Ok
            && !(spec_grant_target(typed, holding) matches Ok(None)),
        spec_grant_target(typed, holding) matches Ok(Some(t)) ==> match typed {
            TypedParams::Dex(p) => t.0 == "dex"@ && (t.1 == "buy"@ <==> p.side == Side::Buy) && (t.1
                == "sell"@ <==> p.side == Side::Sell) && (!is_pct_sell(typed) ==> t.2 == p.amount@),
            TypedParams::Polymarket(p) => t.0 == "polymarket"@ && (t.1 == "buy"@ <==> p.side == Side::Buy)
                && (t.1 == "sell"@ <==> p.side == Side::Sell) && t.2 == p.amount@,
            TypedParams::Defi(p) => t.0 == "defi"@ && t.1 == "buy"@ && p.action == DefiAction::Deposit,
        },
        typed matches TypedParams::Defi(p) ==> (spec_grant_target(typed, holding) matches Ok(None) <==> p.action
            != DefiAction::Deposit),
{
    reveal_strlit("buy");
    reveal_strlit("sell");
    assert("buy"@ != "sell"@) by {
        assert("buy"@.len() != "sell"@.len());
    }
}

} // verus!
