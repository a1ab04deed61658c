use onchainos::autotrade::flow::{step, Action, Event, SignalMeta, Stage};
use onchainos::autotrade::grants::{GrantDeny, DENY_NO_GRANT_FILE};
use onchainos::autotrade::schema::{AmountUnit, DexTradeParams, PolymarketParams, Side, SignalType, TypedParams};
use onchainos::autotrade::{AutoTradeError, DegradeReason};
use onchainos::decimal::Decimal;

const NOW: u64 = 1_000_000_000_000;

fn meta() -> SignalMeta {
    SignalMeta {
        delivery_id: "d-1".to_string(),
        signal_type: SignalType::DexTrade,
        signal_time_ms: NOW - 5_000,
        ttl_sec: 60,
    }
}

fn dex(side: Side, unit: AmountUnit, amount: &str) -> TypedParams {
    TypedParams::Dex(DexTradeParams {
        chain_index: "8453".to_string(),
        token_address: "0xToken".to_string(),
        side,
        amount: amount.to_string(),
        amount_unit: unit,
        slippage_bps: None,
    })
}

fn finish_err(r: (Stage, Action)) -> AutoTradeError {
    match r {
        (Stage::Done, Action::Finish(Err(e))) => e,
        _ => panic!("expected the chain to end with an error"),
    }
}

fn to_typing() -> Stage {
    let (s, a) = step("job1", NOW - 5_000, Stage::Start, Event::Begin);
    assert!(matches!(a, Action::Decode));
    let (s, a) = step("job1", NOW - 5_000, s, Event::Decoded { signal: Ok(meta()), now_ms: NOW });
    assert!(matches!(a, Action::FetchSubscription));
    let (s, a) = step("job1", NOW - 5_000, s, Event::Subscribed(Ok("prov-7".to_string())));
    assert!(matches!(a, Action::ParseParams { signal_type: SignalType::DexTrade }));
    s
}

#[test]
fn flow_rejects_unsafe_job_id_first() {
    let e = finish_err(step("../etc", 0, Stage::Start, Event::Begin));
    assert_eq!(e, AutoTradeError::Degrade(DegradeReason::InvalidJobId));
}

#[test]
fn flow_stale_signal_degrades() {
    let (s, _) = step("job1", 0, Stage::Start, Event::Begin);
    let e = finish_err(step("job1", NOW - 120_000, s, Event::Decoded { signal: Ok(meta()), now_ms: NOW }));
    assert_eq!(e, AutoTradeError::Degrade(DegradeReason::FreshnessExpired));
}

#[test]
fn flow_structure_reject_passes_through() {
    let (s, _) = step("job1", 0, Stage::Start, Event::Begin);
    let bad = AutoTradeError::Reject("bad structure".to_string());
    let e = finish_err(step("job1", NOW, s, Event::Decoded { signal: Err(bad.clone()), now_ms: NOW }));
    assert_eq!(e, bad);
}

#[test]
fn flow_disabled_type_degrades_before_params() {
    let s = to_typing();
    let e = finish_err(step(
        "job1",
        NOW,
        s,
        Event::Typed { enabled: false, params: Err(AutoTradeError::Reject("x".to_string())) },
    ));
    assert_eq!(e, AutoTradeError::Degrade(DegradeReason::TypeDegrade));
}

#[test]
fn flow_missing_wallet_degrades() {
    let s = to_typing();
    let typed = dex(Side::Buy, AmountUnit::Quote, "25");
    let (s, a) = step("job1", NOW, s, Event::Typed { enabled: true, params: Ok(typed) });
    match a {
        Action::LoadWallet { chain_index } => assert_eq!(chain_index, "8453"),
        _ => panic!("expected a wallet lookup"),
    }
    let e = finish_err(step("job1", NOW, s, Event::Wallet(None)));
    assert_eq!(e, AutoTradeError::Degrade(DegradeReason::NoActiveWallet));
}

#[test]
fn flow_prediction_market_uses_chain_1_wallet() {
    let s = to_typing();
    let typed = TypedParams::Polymarket(PolymarketParams {
        condition_id: "cond".to_string(),
        outcome: "YES".to_string(),
        side: Side::Buy,
        amount: "10".to_string(),
        amount_unit: AmountUnit::Quote,
        max_price_cents: None,
    });
    let (_, a) = step("job1", NOW, s, Event::Typed { enabled: true, params: Ok(typed) });
    match a {
        Action::LoadWallet { chain_index } => assert_eq!(chain_index, "1"),
        _ => panic!("expected a wallet lookup"),
    }
}

#[test]
fn flow_dex_buy_checks_grant_latches_then_cards() {
    let s = to_typing();
    let (s, _) = step("job1", NOW, s, Event::Typed { enabled: true, params: Ok(dex(Side::Buy, AmountUnit::Quote, "25")) });
    let (s, a) = step("job1", NOW, s, Event::Wallet(Some("0xBuyer".to_string())));
    match a {
        Action::CheckGrant { venue, action, amount } => {
            assert_eq!(venue, "dex");
            assert_eq!(action, "buy");
            assert_eq!(amount, "25");
        },
        _ => panic!("expected a grant check"),
    }
    let (s, a) = step("job1", NOW, s, Event::Granted(Ok(())));
    match a {
        Action::WriteLatch { delivery_id } => assert_eq!(delivery_id, "d-1"),
        _ => panic!("expected the marker to be written"),
    }
    let (s, a) = step("job1", NOW, s, Event::Latched(Ok(())));
    assert!(matches!(s, Stage::Done));
    match a {
        Action::Finish(Ok(card)) => {
            assert!(card.auto_trade);
            assert!(!card.executed);
            assert_eq!(card.delivery_id, "d-1");
            assert_eq!(card.signal_type, "dex_trade");
            assert_eq!(card.provider, "prov-7");
            assert_eq!(
                card.command,
                "onchainos swap execute --from usdc --to 0xToken --readable-amount 25 --chain base --wallet 0xBuyer"
            );
        },
        _ => panic!("expected the card"),
    }
}

#[test]
fn flow_grant_denial_keeps_its_code() {
    let s = to_typing();
    let (s, _) = step("job1", NOW, s, Event::Typed { enabled: true, params: Ok(dex(Side::Buy, AmountUnit::Quote, "25")) });
    let (s, _) = step("job1", NOW, s, Event::Wallet(Some("0xBuyer".to_string())));
    let e = finish_err(step("job1", NOW, s, Event::Granted(Err(GrantDeny(DENY_NO_GRANT_FILE)))));
    assert_eq!(e, AutoTradeError::Degrade(DegradeReason::GrantDenied("no_grant_file")));
}

#[test]
fn flow_replayed_delivery_skips() {
    let s = to_typing();
    let (s, _) = step("job1", NOW, s, Event::Typed { enabled: true, params: Ok(dex(Side::Buy, AmountUnit::Quote, "25")) });
    let (s, _) = step("job1", NOW, s, Event::Wallet(Some("0xBuyer".to_string())));
    let (s, _) = step("job1", NOW, s, Event::Granted(Ok(())));
    let e = finish_err(step("job1", NOW, s, Event::Latched(Err(AutoTradeError::Degrade(DegradeReason::ReplaySkip)))));
    assert_eq!(e, AutoTradeError::Degrade(DegradeReason::ReplaySkip));
}

#[test]
fn flow_pct_sell_resolves_holding_before_grant() {
    let s = to_typing();
    let (s, _) = step("job1", NOW, s, Event::Typed { enabled: true, params: Ok(dex(Side::Sell, AmountUnit::Pct, "50")) });
    let (s, a) = step("job1", NOW, s, Event::Wallet(Some("0xBuyer".to_string())));
    match a {
        Action::ResolveHolding { wallet, pct } => {
            assert_eq!(wallet, "0xBuyer");
            assert_eq!(pct.to_plain_string(), "50");
        },
        _ => panic!("expected a holding resolution"),
    }
    let abs = Decimal::parse("100.2").unwrap();
    let (s, a) = step("job1", NOW, s, Event::Holding(Ok(abs)));
    match a {
        Action::CheckGrant { venue, action, amount } => {
            assert_eq!(venue, "dex");
            assert_eq!(action, "sell");
            assert_eq!(amount, "100.2");
        },
        _ => panic!("expected a grant check"),
    }
    let (s, a) = step("job1", NOW, s, Event::Granted(Ok(())));
    assert!(matches!(a, Action::WriteLatch { .. }));
    match s {
        Stage::Latching { command, .. } => assert_eq!(
            command,
            "onchainos swap execute --from 0xToken --to usdc --readable-amount 100.2 --chain base --wallet 0xBuyer"
        ),
        _ => panic!("expected the command to be assembled"),
    }
}

#[test]
fn flow_pct_sell_with_bad_percent_degrades() {
    let s = to_typing();
    let (s, _) = step("job1", NOW, s, Event::Typed { enabled: true, params: Ok(dex(Side::Sell, AmountUnit::Pct, "abc")) });
    let e = finish_err(step("job1", NOW, s, Event::Wallet(Some("0xBuyer".to_string()))));
    assert_eq!(e, AutoTradeError::Degrade(DegradeReason::PctHoldingFail));
}
