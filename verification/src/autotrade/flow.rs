//! The buyer's inbound chain as a state machine: each step takes the result
//! of the outside work the previous action asked for and decides the next
//! action. The order is fixed: job id → structure → freshness → subscription
//! → type enabled → typed parameters → wallet → holding (percent sells) →
//! grant cap → command → idempotency marker → card. Any failure ends the
//! chain with its reason; the marker is written only once every check has
//! passed, and the card only after the marker.

use vstd::prelude::*;
use crate::decimal::Decimal;
use crate::text::owned;
use super::card::{assemble_command, command_result_view, make_execution_card, spec_assemble, ExecutionCard, IRON_LAW};
use super::grants::{is_safe_id, GrantDeny};
use super::pipeline::{
    check_freshness, check_job_id, grant_target, is_expired, is_pct_sell, pct_to_resolve,
    signal_chain_index, spec_grant_target, target_result_view, GrantTarget,
};
use super::schema::{spec_signal_type_str, SignalType, TypedParams};
use super::{AutoTradeError, AutoTradeErrorV, DegradeReason};

verus! {

/// What the structural check of a signal yields.
#[derive(Debug, Clone, PartialEq, Eq)]
pub struct SignalMeta {
    pub delivery_id: String,
    pub signal_type: SignalType,
    /// Milliseconds since the epoch.
    pub signal_time_ms: u64,
    pub ttl_sec: u64,
}

/// Where the chain stands, with what it has established so far.
pub enum Stage {
    Start,
    Decoding,
    Subscribing { meta: SignalMeta },
    Typing { meta: SignalMeta, provider: String },
    FindingWallet { meta: SignalMeta, provider: String, typed: TypedParams },
    ResolvingHolding { meta: SignalMeta, provider: String, typed: TypedParams, wallet: String },
    Granting { meta: SignalMeta, provider: String, typed: TypedParams, wallet: String, target: GrantTarget },
    Latching { meta: SignalMeta, provider: String, command: String },
    Done,
}

/// The outside work to do next, or the end of the chain.
pub enum Action {
    /// Decode the signal line, check its structure, and read the clock.
    Decode,
    /// Determine the subscription's provider (active, copy-trade on).
    FetchSubscription,
    /// Tell whether the signal type is enabled, and validate its parameters.
    ParseParams { signal_type: SignalType },
    /// Find the active wallet address for a chain.
    LoadWallet { chain_index: String },
    /// Resolve a percent of the on-chain holding to an absolute amount.
    ResolveHolding { wallet: String, pct: Decimal },
    /// Check the spend against the job's grant.
    CheckGrant { venue: &'static str, action: &'static str, amount: String },
    /// Create the idempotency marker for the delivery.
    WriteLatch { delivery_id: String },
    /// The chain's result.
    Finish(Result<ExecutionCard, AutoTradeError>),
}

/// The result of the outside work an action asked for.
pub enum Event {
    Begin,
    Decoded { signal: Result<SignalMeta, AutoTradeError>, now_ms: u64 },
    Subscribed(Result<String, AutoTradeError>),
    Typed { enabled: bool, params: Result<TypedParams, AutoTradeError> },
    Wallet(Option<String>),
    Holding(Result<Decimal, AutoTradeError>),
    Granted(Result<(), GrantDeny>),
    Latched(Result<(), AutoTradeError>),
}

/// Whether an event answers the action of a stage.
pub open spec fn answers(stage: Stage, event: Event) -> bool {
    match stage {
        Stage::Start => event is Begin,
        Stage::Decoding => event is Decoded,
        Stage::Subscribing { .. } => event is Subscribed,
        Stage::Typing { .. } => event is Typed,
        Stage::FindingWallet { .. } => event is Wallet,
        Stage::ResolvingHolding { .. } => event is Holding,
        Stage::Granting { .. } => event is Granted,
        Stage::Latching { .. } => event is Latched,
        Stage::Done => false,
    }
}

/// The chain ends with the failure `e`.
pub open spec fn fails_with(r: (Stage, Action), e: AutoTradeErrorV) -> bool {
    r.0 is Done && (r.1 matches Action::Finish(Err(x)) && x@ == e)
}

pub open spec fn degrade(d: DegradeReason) -> AutoTradeErrorV {
    AutoTradeErrorV::Degrade(d)
}

/// The chain index whose wallet is used (a prediction-market order, which
/// has none, uses chain `1`).
pub open spec fn wallet_chain(typed: TypedParams) -> Seq<char> {
    match typed {
        TypedParams::Dex(p) => p.chain_index@,
        TypedParams::Defi(p) => match p.chain_index {
            Some(c) => c@,
            None => "1"@,
        },
        TypedParams::Polymarket(_) => "1"@,
    }
}

/// After the grant check (or when none applies): the command, then the
/// marker.
pub open spec fn after_grant(r: (Stage, Action), meta: SignalMeta, provider: String, typed: TypedParams, wallet: String, job_id: Seq<char>, resolved: Option<Seq<char>>) -> bool {
    match spec_assemble(typed, wallet@, job_id, resolved) {
        Err(e) => fails_with(r, e),
        Ok(cmd) => (r.0 matches Stage::Latching { meta: m, provider: p, command: c } && m == meta && p == provider
            && c@ == cmd) && (r.1 matches Action::WriteLatch { delivery_id: d } && d@ == meta.delivery_id@),
    }
}

/// With the grant target known: check it, or go straight to the command.
pub open spec fn after_target(r: (Stage, Action), meta: SignalMeta, provider: String, typed: TypedParams, wallet: String, job_id: Seq<char>, holding: Option<(Seq<char>, Seq<char>)>) -> bool {
    match spec_grant_target(typed, holding) {
        Err(e) => fails_with(r, e),
        Ok(None) => after_grant(r, meta, provider, typed, wallet, job_id, None),
        Ok(Some((venue, action, amount, _))) => (r.0 matches Stage::Granting { meta: m, provider: p, typed: t, wallet: w, target: g }
            && m == meta && p == provider && t == typed && w == wallet
            && super::pipeline::target_view(g) == spec_grant_target(typed, holding)->Ok_0->Some_0)
            && (r.1 matches Action::CheckGrant { venue: v, action: a, amount: x } && v@ == venue && a@ == action
            && x@ == amount),
    }
}

fn fail(e: AutoTradeError) -> (r: (Stage, Action))
    ensures
        fails_with(r, e@),
{
    (Stage::Done, Action::Finish(Err(e)))
}

fn to_command(meta: SignalMeta, provider: String, typed: TypedParams, wallet: String, job_id: &str, resolved: Option<String>) -> (r: (Stage, Action))
    ensures
        after_grant(r, meta, provider, typed, wallet, job_id@, match resolved {
            Some(s) => Some(s@),
            None => None,
        }),
{
    let cmd = match &resolved {
        Some(s) => assemble_command(&typed, wallet.as_str(), job_id, Some(s.as_str())),
        None => assemble_command(&typed, wallet.as_str(), job_id, None),
    };
    match cmd {
        Err(e) => fail(e),
        Ok(command) => {
            let delivery_id = meta.delivery_id.clone();
            (Stage::Latching { meta, provider, command }, Action::WriteLatch { delivery_id })
        },
    }
}

fn to_target(meta: SignalMeta, provider: String, typed: TypedParams, wallet: String, job_id: &str, holding: Option<&Decimal>) -> (r: (Stage, Action))
    ensures
        after_target(r, meta, provider, typed, wallet, job_id@, match holding {
            Some(d) => Some(d@),
            None => None,
        }),
{
    match grant_target(&typed, holding) {
        Err(e) => fail(e),
        Ok(None) => to_command(meta, provider, typed, wallet, job_id, None),
        Ok(Some(target)) => {
            let venue = target.venue;
            let action = target.action;
            let amount = target.amount.clone();
            (Stage::Granting { meta, provider, typed, wallet, target }, Action::CheckGrant { venue, action, amount })
        },
    }
}

/// One step of the chain: the next stage and action for the result of the
/// last action.
pub fn step(job_id: &str, received_at_ms: u64, stage: Stage, event: Event) -> (r: (Stage, Action))
    requires
        answers(stage, event),
    ensures
        match (stage, event) {
            (Stage::Start, _) => if is_safe_id(job_id@) {
                r.0 is Decoding && r.1 is Decode
            } else {
                fails_with(r, degrade(DegradeReason::InvalidJobId))
            },
            (Stage::Decoding, Event::Decoded { signal, now_ms }) => match signal {
                Err(e) => fails_with(r, e@),
                Ok(meta) => if is_expired(meta.signal_time_ms, received_at_ms, now_ms, meta.ttl_sec) {
                    fails_with(r, degrade(DegradeReason::FreshnessExpired))
                } else {
                    (r.0 matches Stage::Subscribing { meta: m } && m == meta) && r.1 is FetchSubscription
                },
            },
            (Stage::Subscribing { meta }, Event::Subscribed(sub)) => match sub {
                Err(e) => fails_with(r, e@),
                Ok(provider) => (r.0 matches Stage::Typing { meta: m, provider: p } && m == meta && p == provider)
                    && (r.1 matches Action::ParseParams { signal_type: t } && t == meta.signal_type),
            },
            (Stage::Typing { meta, provider }, Event::Typed { enabled, params }) => if !enabled {
                fails_with(r, degrade(DegradeReason::TypeDegrade))
            } else {
                match params {
                    Err(e) => fails_with(r, e@),
                    Ok(typed) => (r.0 matches Stage::FindingWallet { meta: m, provider: p, typed: t } && m == meta
                        && p == provider && t == typed) && (r.1 matches Action::LoadWallet { chain_index: c }
                        && c@ == wallet_chain(typed)),
                }
            },
            (Stage::FindingWallet { meta, provider, typed }, Event::Wallet(w)) => match w {
                None => fails_with(r, degrade(DegradeReason::NoActiveWallet)),
                Some(wallet) => if is_pct_sell(typed) {
                    match typed {
                        TypedParams::Dex(p) => if crate::decimal::is_decimal(p.amount@) {
                            (r.0 matches Stage::ResolvingHolding { meta: m, provider: q, typed: t, wallet: x } && m
                                == meta && q == provider && t == typed && x == wallet) && (r.1 matches Action::ResolveHolding {
                                wallet: x,
                                pct: d,
                            } && x == wallet && d@ == crate::decimal::dec_parts(p.amount@))
                        } else {
                            fails_with(r, degrade(DegradeReason::PctHoldingFail))
                        },
                        _ => false,
                    }
                } else {
                    after_target(r, meta, provider, typed, wallet, job_id@, None)
                },
            },
            (Stage::ResolvingHolding { meta, provider, typed, wallet }, Event::Holding(h)) => match h {
                Err(e) => fails_with(r, e@),
                Ok(abs) => after_target(r, meta, provider, typed, wallet, job_id@, Some(abs@)),
            },
            (Stage::Granting { meta, provider, typed, wallet, target }, Event::Granted(g)) => match g {
                Err(deny) => fails_with(r, degrade(DegradeReason::GrantDenied(deny.0))),
                Ok(()) => after_grant(r, meta, provider, typed, wallet, job_id@, match target.resolved_dex_amount {
                    Some(s) => Some(s@),
                    None => None,
                }),
            },
            (Stage::Latching { meta, provider, command }, Event::Latched(l)) => match l {
                Err(e) => fails_with(r, e@),
                Ok(()) => r.0 is Done && (r.1 matches Action::Finish(Ok(card)) && card.auto_trade && !card.executed
                    && card.delivery_id@ == meta.delivery_id@ && card.signal_type@ == spec_signal_type_str(
                    meta.signal_type,
                ) && card.provider@ == provider@ && card.command == command && card.iron_law@ == IRON_LAW@),
            },
            _ => false,
        },
{
    match (stage, event) {
        (Stage::Start, _) => match check_job_id(job_id) {
            Err(e) => fail(e),
            Ok(()) => (Stage::Decoding, Action::Decode),
        },
        (Stage::Decoding, Event::Decoded { signal, now_ms }) => match signal {
            Err(e) => fail(e),
            Ok(meta) => match check_freshness(meta.signal_time_ms, received_at_ms, now_ms, meta.ttl_sec) {
                Err(e) => fail(e),
                Ok(()) => (Stage::Subscribing { meta }, Action::FetchSubscription),
            },
        },
        (Stage::Subscribing { meta }, Event::Subscribed(sub)) => match sub {
            Err(e) => fail(e),
            Ok(provider) => {
                let signal_type = meta.signal_type;
                (Stage::Typing { meta, provider }, Action::ParseParams { signal_type })
            },
        },
        (Stage::Typing { meta, provider }, Event::Typed { enabled, params }) => {
            if !enabled {
                return fail(AutoTradeError::Degrade(DegradeReason::TypeDegrade));
            }
            match params {
                Err(e) => fail(e),
                Ok(typed) => {
                    let chain_index = match signal_chain_index(&typed) {
                        Some(c) => owned(c),
                        None => owned("1"),
                    };
                    proof {
                        reveal_strlit("1");
                    }
                    (Stage::FindingWallet { meta, provider, typed }, Action::LoadWallet { chain_index })
                },
            }
        },
        (Stage::FindingWallet { meta, provider, typed }, Event::Wallet(w)) => match w {
            None => fail(AutoTradeError::Degrade(DegradeReason::NoActiveWallet)),
            Some(wallet) => match pct_to_resolve(&typed) {
                Err(e) => fail(e),
                Ok(Some(pct)) => {
                    let w2 = wallet.clone();
                    (Stage::ResolvingHolding { meta, provider, typed, wallet }, Action::ResolveHolding { wallet: w2, pct })
                },
                Ok(None) => to_target(meta, provider, typed, wallet, job_id, None),
            },
        },
        (Stage::ResolvingHolding { meta, provider, typed, wallet }, Event::Holding(h)) => match h {
            Err(e) => fail(e),
            Ok(abs) => to_target(meta, provider, typed, wallet, job_id, Some(&abs)),
        },
        (Stage::Granting { meta, provider, typed, wallet, target }, Event::Granted(g)) => match g {
            Err(deny) => fail(AutoTradeError::Degrade(DegradeReason::GrantDenied(deny.0))),
            Ok(()) => to_command(meta, provider, typed, wallet, job_id, target.resolved_dex_amount),
        },
        (Stage::Latching { meta, provider, command }, Event::Latched(l)) => match l {
            Err(e) => fail(e),
            Ok(()) => {
                let card = make_execution_card(
                    meta.delivery_id.as_str(),
                    meta.signal_type.as_str(),
                    provider.as_str(),
                    command,
                );
                (Stage::Done, Action::Finish(Ok(card)))
            },
        },
        _ => {
            proof {
                assert(false);
            }
            (Stage::Done, Action::Decode)
        },
    }
}

} // verus!
