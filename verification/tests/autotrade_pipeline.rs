use onchainos::autotrade::card::{assemble_command, make_execution_card, make_notify_only, IRON_LAW};
use onchainos::autotrade::chains::{chain_family, chain_name_for_index, resolve_chain};
use onchainos::autotrade::grants::{GrantDeny, DENY_EXPIRED, DENY_NO_GRANT_FILE};
use onchainos::autotrade::pipeline::{
    check_freshness, check_job_id, grant_target, outcome_of, pct_to_resolve, signal_chain_index,
    resolve_wallet_address, PipelineOutcome, WalletAccount, WalletAddress,
};
use onchainos::autotrade::schema::{
    check_delivery_id, AmountUnit, DefiAction, DefiRebalanceParams, DexTradeParams,
    PolymarketParams, Side, SignalType, TypedParams,
};
use onchainos::autotrade::{AutoTradeError, DegradeReason};
use onchainos::decimal::Decimal;

#[test]
fn ac4_freshness_uses_min_of_signal_and_received() {
    let ttl = 60u64;
    let now = 1_000_000_000_000u64;
    let signal_time = now - 10_000;
    let received_at = now - 120_000;
    assert!(check_freshness(signal_time, received_at, now, ttl).is_err());
    assert!(check_freshness(now - 5_000, now - 5_000, now, ttl).is_ok());
    assert!(check_freshness(now - 60_000, now - 60_000, now, ttl).is_ok());
    assert!(check_freshness(now - 60_001, now - 60_001, now, ttl).is_err());
}

#[test]
fn freshness_future_timestamp_is_fresh() {
    let now = 1_000u64;
    assert!(check_freshness(now + 5_000, now + 5_000, now, 1).is_ok());
}

#[test]
fn freshness_expired_reason_and_huge_ttl() {
    assert_eq!(
        check_freshness(0, 0, 10_000, 1),
        Err(AutoTradeError::Degrade(DegradeReason::FreshnessExpired))
    );
    assert!(check_freshness(0, 0, u64::MAX, u64::MAX).is_ok());
}

#[test]
fn job_id_charset_guard_at_entry() {
    assert!(check_job_id("job1").is_ok());
    assert!(check_job_id("JOB_9-abc").is_ok());
    for bad in ["../../etc/passwd", "job/1", "", "job.1", "job 1", "a/b"] {
        assert!(
            matches!(check_job_id(bad), Err(AutoTradeError::Degrade(DegradeReason::InvalidJobId))),
            "should reject job_id={bad}"
        );
    }
    assert_eq!(DegradeReason::InvalidJobId.as_str(), "invalid_job_id");
}

#[test]
fn grant_denied_reason_flows_to_notify() {
    let expired = DegradeReason::GrantDenied(GrantDeny(DENY_EXPIRED).code());
    assert_eq!(expired.as_str(), "grant_expired");
    let notify = make_notify_only("/tmp/x", expired.as_str());
    assert_eq!(notify.reason, "grant_expired");
    let no_file = DegradeReason::GrantDenied(GrantDeny(DENY_NO_GRANT_FILE).code());
    assert_eq!(no_file.as_str(), "no_grant_file");
    assert_ne!(no_file.as_str(), DegradeReason::OverCap.as_str());
}

#[test]
fn delivery_id_rule() {
    assert!(check_delivery_id("abc123").is_ok());
    assert!(check_delivery_id(&"a".repeat(128)).is_ok());
    assert_eq!(check_delivery_id(&"a".repeat(129)), Err("invalid deliveryId".to_string()));
    assert!(check_delivery_id("bad id").is_err());
    assert!(check_delivery_id("").is_err());
}

fn dex(side: Side, unit: AmountUnit, slippage_bps: Option<u32>) -> TypedParams {
    TypedParams::Dex(DexTradeParams {
        chain_index: "8453".to_string(),
        token_address: "0xToken".to_string(),
        side,
        amount: "25".to_string(),
        amount_unit: unit,
        slippage_bps,
    })
}

fn defi(action: DefiAction) -> DefiRebalanceParams {
    DefiRebalanceParams {
        protocol_product_id: "pid9".to_string(),
        action,
        amount: None,
        amount_unit: None,
        token_address: None,
        chain_index: None,
        platform_id: None,
    }
}

#[test]
fn dex_buy_recipe_uses_swap_execute() {
    let p = dex(Side::Buy, AmountUnit::Quote, Some(500));
    let cmd = assemble_command(&p, "0xBuyer", "job1", None).unwrap();
    assert_eq!(
        cmd,
        "onchainos swap execute --from usdc --to 0xToken --readable-amount 25 --chain base --wallet 0xBuyer --slippage 5"
    );
}

#[test]
fn dex_sell_pct_uses_resolved_amount() {
    let p = dex(Side::Sell, AmountUnit::Pct, None);
    let cmd = assemble_command(&p, "0xBuyer", "job1", Some("100.2")).unwrap();
    assert_eq!(
        cmd,
        "onchainos swap execute --from 0xToken --to usdc --readable-amount 100.2 --chain base --wallet 0xBuyer"
    );
    assert_eq!(
        assemble_command(&p, "0xBuyer", "job1", None),
        Err(AutoTradeError::Reject("pct sell requires a resolved amount".to_string()))
    );
}

#[test]
fn dex_slippage_fractions_and_unknown_chain() {
    let cmd = assemble_command(&dex(Side::Buy, AmountUnit::Quote, Some(5)), "w", "j", None).unwrap();
    assert!(cmd.ends_with("--slippage 0.05"), "got: {cmd}");
    let cmd = assemble_command(&dex(Side::Buy, AmountUnit::Quote, Some(150)), "w", "j", None).unwrap();
    assert!(cmd.ends_with("--slippage 1.5"), "got: {cmd}");
    let mut p = DexTradeParams {
        chain_index: "999999".to_string(),
        token_address: "0xT".to_string(),
        side: Side::Buy,
        amount: "1".to_string(),
        amount_unit: AmountUnit::Quote,
        slippage_bps: None,
    };
    assert_eq!(
        assemble_command(&TypedParams::Dex(p.clone()), "w", "j", None),
        Err(AutoTradeError::Reject("no chain name for index 999999".to_string()))
    );
    p.chain_index = "1".to_string();
    assert!(assemble_command(&TypedParams::Dex(p), "w", "j", None).unwrap().contains("--chain ethereum"));
}

#[test]
fn defi_withdraw_ratio_12_5_to_0_125() {
    let mut d = defi(DefiAction::Withdraw);
    d.amount = Some("12.5".to_string());
    let cmd = assemble_command(&TypedParams::Defi(d), "0xBuyer", "job1", None).unwrap();
    assert_eq!(cmd, "onchainos defi redeem --id pid9 --address 0xBuyer --ratio 0.125");
    let mut bad = defi(DefiAction::Withdraw);
    bad.amount = Some("12%".to_string());
    assert_eq!(
        assemble_command(&TypedParams::Defi(bad), "0xBuyer", "job1", None),
        Err(AutoTradeError::Reject("withdraw pct invalid".to_string()))
    );
}

#[test]
fn defi_claim_uses_collect_with_reward_type() {
    let mut d = defi(DefiAction::Claim);
    d.platform_id = Some("plat1".to_string());
    d.chain_index = Some("8453".to_string());
    let cmd = assemble_command(&TypedParams::Defi(d), "0xBuyer", "job1", None).unwrap();
    assert_eq!(
        cmd,
        "onchainos defi collect --address 0xBuyer --chain base --reward-type REWARD_INVESTMENT --investment-id pid9 --platform-id plat1"
    );
    assert!(!cmd.contains("redeem"));
}

#[test]
fn defi_deposit_user_input_has_three_keys() {
    let mut d = defi(DefiAction::Deposit);
    d.amount = Some("5".to_string());
    d.amount_unit = Some(AmountUnit::Quote);
    d.token_address = Some("0xToken".to_string());
    d.chain_index = Some("8453".to_string());
    let cmd = assemble_command(&TypedParams::Defi(d), "0xBuyer", "job1", None).unwrap();
    assert!(cmd.contains("onchainos defi deposit"));
    assert!(cmd.contains("--user-input"));
    assert!(cmd.contains("\"tokenAddress\":\"0xToken\""));
    assert!(cmd.contains("\"chainIndex\":\"8453\""));
    assert!(cmd.contains("\"coinAmount\":\"5\""));
    assert_eq!(
        cmd,
        "onchainos defi deposit --investment-id pid9 --address 0xBuyer --user-input '[{\"chainIndex\":\"8453\",\"coinAmount\":\"5\",\"tokenAddress\":\"0xToken\"}]'"
    );
}

#[test]
fn defi_deposit_escapes_json_text() {
    let mut d = defi(DefiAction::Deposit);
    d.amount = Some("5".to_string());
    d.token_address = Some("0x\"T\\".to_string());
    let cmd = assemble_command(&TypedParams::Defi(d), "w", "j", None).unwrap();
    assert!(cmd.contains("\"tokenAddress\":\"0x\\\"T\\\\\""), "got: {cmd}");
    assert!(cmd.contains("\"chainIndex\":\"\""), "got: {cmd}");
}

#[test]
fn polymarket_buy_uses_market_id_and_autotrade_job() {
    let p = TypedParams::Polymarket(PolymarketParams {
        condition_id: "0xCond".to_string(),
        outcome: "Yes".to_string(),
        side: Side::Buy,
        amount: "10".to_string(),
        amount_unit: AmountUnit::Quote,
        max_price_cents: Some(55),
    });
    let cmd = assemble_command(&p, "0xBuyer", "job7", None).unwrap();
    assert_eq!(
        cmd,
        "polymarket-plugin buy --market-id 0xCond --outcome Yes --amount 10 --price 0.55 --autotrade-job job7"
    );
}

#[test]
fn polymarket_sell_uses_shares() {
    let p = TypedParams::Polymarket(PolymarketParams {
        condition_id: "0xCond".to_string(),
        outcome: "No".to_string(),
        side: Side::Sell,
        amount: "3".to_string(),
        amount_unit: AmountUnit::Base,
        max_price_cents: None,
    });
    let cmd = assemble_command(&p, "0xBuyer", "job7", None).unwrap();
    assert_eq!(cmd, "polymarket-plugin sell --market-id 0xCond --outcome No --shares 3 --autotrade-job job7");
}

#[test]
fn execution_card_has_no_saved_path_field() {
    let card = make_execution_card("d1", SignalType::DexTrade.as_str(), "1506", "onchainos swap execute".into());
    assert!(card.auto_trade);
    assert!(!card.executed);
    assert_eq!(card.delivery_id, "d1");
    assert_eq!(card.signal_type, "dex_trade");
    assert_eq!(card.provider, "1506");
    assert_eq!(card.iron_law, IRON_LAW);
    assert_eq!(card.command, "onchainos swap execute");
}

#[test]
fn outcome_maps_degrades_and_rejects_to_notify() {
    let card = make_execution_card("d1", "dex_trade", "p", "cmd".to_string());
    match outcome_of(Ok(card.clone()), "/saved") {
        PipelineOutcome::Card(c) => assert_eq!(*c, card),
        PipelineOutcome::Notify(_) => panic!("expected card"),
    }
    match outcome_of(Err(AutoTradeError::Degrade(DegradeReason::ReplaySkip)), "/saved") {
        PipelineOutcome::Notify(n) => {
            assert_eq!(n.reason, "replay_skip");
            assert_eq!(n.saved_path, "/saved");
        }
        PipelineOutcome::Card(_) => panic!("expected notify"),
    }
    match outcome_of(Err(AutoTradeError::Reject("bad".to_string())), "/saved") {
        PipelineOutcome::Notify(n) => assert_eq!(n.reason, "structure_reject"),
        PipelineOutcome::Card(_) => panic!("expected notify"),
    }
}

#[test]
fn grant_targets_by_signal() {
    let t = grant_target(&dex(Side::Buy, AmountUnit::Quote, None), None).unwrap().unwrap();
    assert_eq!((t.venue, t.action, t.amount.as_str()), ("dex", "buy", "25"));
    let t = grant_target(&dex(Side::Sell, AmountUnit::Base, None), None).unwrap().unwrap();
    assert_eq!((t.venue, t.action), ("dex", "sell"));
    assert_eq!(
        grant_target(&dex(Side::Sell, AmountUnit::Quote, None), None),
        Err(AutoTradeError::Degrade(DegradeReason::StructureReject))
    );
    assert_eq!(
        grant_target(&dex(Side::Sell, AmountUnit::Pct, None), None),
        Err(AutoTradeError::Degrade(DegradeReason::PctHoldingFail))
    );
    let held = Decimal::parse("0100.20").unwrap();
    let t = grant_target(&dex(Side::Sell, AmountUnit::Pct, None), Some(&held)).unwrap().unwrap();
    assert_eq!(t.amount, "100.2");
    assert_eq!(t.resolved_dex_amount.as_deref(), Some("100.2"));
    assert_eq!(grant_target(&TypedParams::Defi(defi(DefiAction::Claim)), None), Ok(None));
    let t = grant_target(&TypedParams::Defi(defi(DefiAction::Deposit)), None).unwrap().unwrap();
    assert_eq!((t.venue, t.action, t.amount.as_str()), ("defi", "buy", ""));
    let pct = pct_to_resolve(&dex(Side::Sell, AmountUnit::Pct, None)).unwrap().unwrap();
    assert_eq!(pct.to_plain_string(), "25");
    assert!(pct_to_resolve(&dex(Side::Buy, AmountUnit::Quote, None)).unwrap().is_none());
    assert_eq!(signal_chain_index(&dex(Side::Buy, AmountUnit::Quote, None)), Some("8453"));
    assert_eq!(signal_chain_index(&TypedParams::Defi(defi(DefiAction::Claim))), None);
}

#[test]
fn chain_names_round_trip() {
    assert_eq!(chain_name_for_index("8453"), Some("base"));
    assert_eq!(resolve_chain("base"), "8453");
    assert_eq!(resolve_chain("solana"), "501");
    assert_eq!(resolve_chain("8453"), "8453");
    assert_eq!(chain_name_for_index("base"), None);
    for idx in ["1", "56", "137", "10", "42161", "8453", "196", "501"] {
        let name = chain_name_for_index(idx).unwrap();
        assert_eq!(resolve_chain(name), idx);
    }
}

#[test]
fn wallet_address_exact_then_family() {
    let addr = |c: &str, a: &str| WalletAddress { chain_index: c.to_string(), address: a.to_string() };
    let accounts = vec![
        WalletAccount { account_id: "a0".to_string(), address_list: vec![addr("1", "0xOther")] },
        WalletAccount {
            account_id: "a1".to_string(),
            address_list: vec![addr("56", "0xBsc"), addr("1", "0xEth"), addr("501", "Sol"), addr("42161", "")],
        },
    ];
    assert_eq!(resolve_wallet_address("a1", &accounts, "1").as_deref(), Some("0xEth"));
    assert_eq!(resolve_wallet_address("a1", &accounts, "8453").as_deref(), Some("0xBsc"));
    assert_eq!(resolve_wallet_address("a1", &accounts, "501").as_deref(), Some("Sol"));
    assert_eq!(resolve_wallet_address("a1", &accounts, "999"), None);
    assert_eq!(resolve_wallet_address("a1", &accounts, "42161"), None);
    assert_eq!(resolve_wallet_address("", &accounts, "1"), None);
    assert_eq!(resolve_wallet_address("zz", &accounts, "1"), None);
    assert_eq!(chain_family("196"), "evm");
    assert_eq!(chain_family("501"), "solana");
    assert_eq!(chain_family("7"), "7");
}

#[test]
fn fixed_reason_names_are_distinct() {
    let all = [
        DegradeReason::StructureReject,
        DegradeReason::FreshnessExpired,
        DegradeReason::NoActiveWallet,
        DegradeReason::TypeDegrade,
        DegradeReason::OverCap,
        DegradeReason::PctHoldingFail,
        DegradeReason::ReplaySkip,
        DegradeReason::LatchWriteFail,
        DegradeReason::InvalidJobId,
    ];
    for (i, a) in all.iter().enumerate() {
        for (j, b) in all.iter().enumerate() {
            assert_eq!(i == j, a.as_str() == b.as_str(), "{a:?} vs {b:?}");
        }
    }
}

#[test]
fn defi_deposit_escapes_control_characters() {
    let mut d = defi(DefiAction::Deposit);
    d.amount = Some("5\n\u{1}\u{1f}".to_string());
    let cmd = assemble_command(&TypedParams::Defi(d), "w", "j", None).unwrap();
    assert!(cmd.contains("\"coinAmount\":\"5\\n\\u0001\\u001f\""), "got: {cmd}");
}
