use onchainos::trade_signal::envelope::{check_envelope, V2Envelope};
use onchainos::trade_signal::error::ParseError;
use onchainos::trade_signal::ParsedSignal;
use onchainos::trade_signal::{parse_signal_text, SignalParams};

const CANONICAL: &[&str] = &[
    "【现货信号】市场:BTC/USDT|币种:BTC|方向:BUY|价格:60000-65000|类型:limit|仓位:5%|有效期:1h",
    "【现货信号】市场:Solana|币种:WIF|方向:BUY|价格:1.5-2.0|合约地址:EKpQ6uzn|滑点:3%|仓位:10%|有效期:30min",
    "【合约信号】交易对:BTC-PERP|方向:LONG|杠杆:10|入场:60000-61000|止损:59000|止盈1:62000|止盈2:63000|止盈3:64000|保证金:cross|仓位:5%|有效期:2h",
    "【合约信号】交易对:ETH-PERP|方向:SHORT|杠杆:5|入场:3000-3100|止损:3200|止盈:2900/2800|保证金:isolated|仓位:8%|有效期:1d",
    "【预测市场信号】事件:美联储12月降息|结果:YES @0.65|结算日:2025-12-31|仓位:5%|有效期:3d",
    "【期权信号】合约代码:BTC-251231-60000-C|方向:买入|类型:Call|行权价:60000|到期日:2025-12-31|权利金上限:1500|仓位:5%|有效期:5d",
    "【DeFi 信号】链:Ethereum|协议:AaveV3|年化:5.5%|锁仓:1.2B|币种:USDC|赎回:活期|仓位:10%|有效期:7d",
    "【Spot Signal】market:ETH/USDT|symbol:ETH|side:SELL|price:3000-3200|orderType:market|position:0.1%|ttl:5min",
    "【Spot Signal】market:base|symbol:DEGEN|side:BUY|price:0.01-0.02|tokenAddr:0xabc123|slippage:5%|position:20%|ttl:7d",
    "【Futures Signal】pair:SOL-PERP|direction:LONG|leverage:20|entry:150-155|stopLoss:145|tp1:160|position:3%|ttl:6h",
    "【Futures Signal】pair:BNB-PERP|direction:SHORT|leverage:3|entry:600-610|stopLoss:620|takeProfit:590/580/570|marginMode:cross|position:12%|ttl:12h",
    "【Prediction Signal】event:BTC above 100k by EOY|outcome:UP @0.4|settleDate:2024-02-29|position:2%|ttl:7d",
    "【Options Signal】contractCode:ETH-250630-3000-P|side:Sell|optionType:Put|strike:3000|expiry:2025-06-30|premiumCap:200|position:4%|ttl:2d",
    "【DeFi Signal】chain:Solana|protocolPool:Kamino|apy:8%|tvl:500M|token:USDC|redeemTerms:flexible|position:15%|ttl:1d",
];

fn code(text: &str) -> &'static str {
    parse_signal_text(text).unwrap_err().code()
}

#[test]
fn ac1_all_canonical_examples_parse() {
    for (i, text) in CANONICAL.iter().enumerate() {
        assert!(
            parse_signal_text(text).is_ok(),
            "canonical example {i} failed to parse: code={}",
            parse_signal_text(text)
                .map(|_| "ok")
                .unwrap_or_else(|e| e.code())
        );
    }
}

#[test]
fn ac9_asset_class_matches_params_kind() {
    for text in CANONICAL {
        let p = parse_signal_text(text).unwrap();
        let kind = match p.params {
            SignalParams::Spot(_) => "spot",
            SignalParams::Perp(_) => "perp",
            SignalParams::Prediction(_) => "prediction",
            SignalParams::Option(_) => "option",
            SignalParams::Defi(_) => "defi",
        };
        assert_eq!(p.asset_class.as_str(), kind);
    }
}

#[test]
fn ac3_spot_cex_and_onchain() {
    let cex = parse_signal_text(CANONICAL[0]).unwrap();
    match cex.params {
        SignalParams::Spot(s) => {
            assert!(s.token_addr.is_none() && s.slippage.is_none());
            assert_eq!(s.price_range.lo, "60000");
            assert_eq!(s.price_range.hi, "65000");
        }
        _ => panic!("expected spot"),
    }
    let onchain = parse_signal_text(CANONICAL[1]).unwrap();
    match onchain.params {
        SignalParams::Spot(s) => {
            assert_eq!(s.token_addr.as_deref(), Some("EKpQ6uzn"));
            assert_eq!(s.slippage.as_deref(), Some("3"));
            assert_eq!(s.price_range.hi, "2");
        }
        _ => panic!("expected spot"),
    }
}

#[test]
fn ac4_perp_directions_and_tp_forms() {
    let long = parse_signal_text(CANONICAL[2]).unwrap();
    match long.params {
        SignalParams::Perp(p) => {
            assert_eq!(p.leverage, 10);
            assert_eq!(p.take_profit, vec!["62000", "63000", "64000"]);
            assert_eq!(p.stop_loss, "59000");
        }
        _ => panic!("expected perp"),
    }
    let short = parse_signal_text(CANONICAL[3]).unwrap();
    match short.params {
        SignalParams::Perp(p) => assert_eq!(p.take_profit, vec!["2900", "2800"]),
        _ => panic!("expected perp"),
    }
    let short_en = parse_signal_text(CANONICAL[10]).unwrap();
    match short_en.params {
        SignalParams::Perp(p) => assert_eq!(p.take_profit, vec!["590", "580", "570"]),
        _ => panic!("expected perp"),
    }
}

#[test]
fn ac8_boundaries() {
    let p = parse_signal_text(CANONICAL[7]).unwrap();
    assert_eq!(p.ttl_sec, 300);
    assert_eq!(p.position_pct, "0.1");
    let p = parse_signal_text(CANONICAL[8]).unwrap();
    assert_eq!(p.ttl_sec, 604_800);
    assert_eq!(p.position_pct, "20");
    let p = parse_signal_text(CANONICAL[11]).unwrap();
    match p.params {
        SignalParams::Prediction(pr) => {
            assert_eq!(pr.settle_date, "2024-02-29");
            assert_eq!(pr.odds, "0.4");
        }
        _ => panic!("expected prediction"),
    }
}

#[test]
fn ac5_ac6_outcome_and_option() {
    for (text, ok) in [
        (
            "【预测市场信号】事件:x|结果:NO @0.5|结算日:2025-12-31|仓位:5%|有效期:1d",
            true,
        ),
        (
            "【预测市场信号】事件:x|结果:DOWN @0.5|结算日:2025-12-31|仓位:5%|有效期:1d",
            true,
        ),
    ] {
        assert_eq!(parse_signal_text(text).is_ok(), ok);
    }
    let opt = parse_signal_text(CANONICAL[12]).unwrap();
    match opt.params {
        SignalParams::Option(o) => {
            assert_eq!(o.expiry, "2025-06-30");
            assert_eq!(o.strike, "3000");
        }
        _ => panic!("expected option"),
    }
}

#[test]
fn ac10_header() {
    assert_eq!(code(" 【现货信号】市场:BTC/USDT"), "unknown_header");
    assert_eq!(code("【unknown】市场:BTC"), "unknown_header");
    assert_eq!(code("[现货信号]市场:BTC"), "unknown_header");
    assert_eq!(code("【现货】市场:BTC/USDT|币种:BTC"), "unknown_header");
}

#[test]
fn ac11_language_mix() {
    assert_eq!(
        code("【现货信号】market:BTC/USDT|币种:BTC|方向:BUY|价格:60000-65000|仓位:5%|有效期:1h"),
        "language_mix"
    );
}

#[test]
fn ac12_forbidden_and_shape() {
    assert_eq!(code("【现货信号】市场:BTC\n方向:BUY"), "multi_line");
    assert_eq!(
        code(&format!("【现货信号】市场:{}", "A".repeat(210))),
        "too_long"
    );
    assert_eq!(code("【现货信号】市场:BTC🚀|方向:BUY"), "forbidden_content");
    assert_eq!(
        code("【现货信号】市场:https://x.io|方向:BUY"),
        "forbidden_content"
    );
    assert_eq!(code("【现货信号】市场:@btc|方向:BUY"), "forbidden_content");
    assert_eq!(
        code(
            "【现货信号】市场:BTC/USDT|币种:BTC|方向:BUY|价格:60000-65000|仓位:5%|有效期:1h|额外:1"
        ),
        "forbidden_content"
    );
    assert_eq!(
        code("【现货信号】市场:BTC/USDT||方向:BUY|价格:60000-65000|仓位:5%|有效期:1h"),
        "empty_field"
    );
}

#[test]
fn ac12b_fixed_order_reorder_rejected() {
    assert_eq!(
        code("【现货信号】币种:BTC|市场:BTC/USDT|方向:BUY|价格:60000-65000|仓位:5%|有效期:1h"),
        "field_count_error"
    );
}

#[test]
fn ac13_position() {
    let base = |pos: &str| {
        format!("【现货信号】市场:BTC/USDT|币种:BTC|方向:BUY|价格:60000-65000|仓位:{pos}|有效期:1h")
    };
    for pos in ["0%", "20.1%", "5-10%", "5%,10%"] {
        assert_eq!(code(&base(pos)), "out_of_range", "position {pos}");
    }
}

#[test]
fn ac14_ttl() {
    let base = |ttl: &str| {
        format!("【现货信号】市场:BTC/USDT|币种:BTC|方向:BUY|价格:60000-65000|仓位:5%|有效期:{ttl}")
    };
    for ttl in ["4min", "8d", "30s"] {
        assert_eq!(code(&base(ttl)), "out_of_range", "ttl {ttl}");
    }
}

#[test]
fn ac15_numbers() {
    let base = |price: &str| {
        format!("【现货信号】市场:BTC/USDT|币种:BTC|方向:BUY|价格:{price}|仓位:5%|有效期:1h")
    };
    assert_eq!(code(&base("1e3-2e3")), "invalid_number");
    assert_eq!(code(&base("1,000-2,000")), "invalid_number");
    assert_eq!(code(&base("5%-10%")), "invalid_number");
    assert_eq!(code(&base("65000-60000")), "out_of_range");
}

#[test]
fn ac16_perp_direction() {
    assert_eq!(
        code("【合约信号】交易对:BTC-PERP|方向:LONG|杠杆:10|入场:60000-61000|止损:60500|止盈1:62000|仓位:5%|有效期:1h"),
        "direction_constraint"
    );
    assert_eq!(
        code("【合约信号】交易对:BTC-PERP|方向:LONG|杠杆:10|入场:60000-61000|止损:59000|止盈1:59500|仓位:5%|有效期:1h"),
        "direction_constraint"
    );
    assert_eq!(
        code("【合约信号】交易对:BTC-PERP|方向:LONG|杠杆:10|入场:60000-61000|止损:59000|止损:58000|止盈1:62000|仓位:5%|有效期:1h"),
        "field_count_error"
    );
    assert_eq!(
        code("【合约信号】交易对:BTC-PERP|方向:LONG|杠杆:10|入场:60000-61000|止损:59000|仓位:5%|有效期:1h"),
        "direction_constraint"
    );
    assert_eq!(
        code("【Futures Signal】pair:BTC-PERP|direction:LONG|leverage:10|entry:60000-61000|stopLoss:59000|tp1:62000|tp3:64000|position:5%|ttl:1h"),
        "direction_constraint"
    );
}

#[test]
fn ac16b_non_monotonic_tps_accepted() {
    assert!(parse_signal_text(
        "【合约信号】交易对:BTC-PERP|方向:LONG|杠杆:10|入场:60000-61000|止损:59000|止盈1:64000|止盈2:62000|仓位:5%|有效期:1h"
    )
    .is_ok());
}

#[test]
fn ac17_prediction() {
    assert_eq!(
        code("【预测市场信号】事件:x|结果:MAYBE @0.5|结算日:2025-12-31|仓位:5%|有效期:1d"),
        "illegal_keyword"
    );
    assert_eq!(
        code("【预测市场信号】事件:x|结果:YES @1.5|结算日:2025-12-31|仓位:5%|有效期:1d"),
        "out_of_range"
    );
    assert_eq!(
        code("【预测市场信号】事件:x|结果:YES @0.5|结算日:12-31|仓位:5%|有效期:1d"),
        "invalid_date"
    );
    assert_eq!(
        code("【预测市场信号】事件:x|结果:YES @0.5|结算日:2025-02-30|仓位:5%|有效期:1d"),
        "invalid_date"
    );
}

#[test]
fn ac18_option_mismatch() {
    assert_eq!(
        code("【期权信号】合约代码:BTC-251231-60000-C|方向:买入|类型:Put|行权价:60000|到期日:2025-12-31|权利金上限:1500|仓位:5%|有效期:5d"),
        "option_field_mismatch"
    );
    assert_eq!(
        code("【期权信号】合约代码:BTC-251231-60000-C|方向:买入|类型:Call|行权价:59000|到期日:2025-12-31|权利金上限:1500|仓位:5%|有效期:5d"),
        "option_field_mismatch"
    );
    assert_eq!(
        code("【期权信号】合约代码:BTC-251231-60000-C|方向:买入|类型:Call|行权价:60000|到期日:2025-12-30|权利金上限:1500|仓位:5%|有效期:5d"),
        "option_field_mismatch"
    );
}

#[test]
fn ac19_defi_missing_field() {
    assert_eq!(
        code(
            "【DeFi 信号】链:Ethereum|协议:AaveV3|锁仓:1.2B|币种:USDC|赎回:活期|仓位:10%|有效期:7d"
        ),
        "field_count_error"
    );
    assert_eq!(
        code("【DeFi 信号】链:Ethereum|协议:AaveV3|年化:5%|锁仓:1.2B|币种:USDC|仓位:10%|有效期:7d"),
        "field_count_error"
    );
}

#[test]
fn ac24_errors_never_leak_input() {
    let leaky_inputs = [
        "【现货信号】市场:base|币种:X|方向:BUY|价格:1-2|合约地址:0xSECRETADDR|滑点:9%|仓位:5%|有效期:1h",
        "【预测市场信号】事件:SECRETEVENTTEXT|结果:YES @9|结算日:2025-12-31|仓位:5%|有效期:1d",
        "【期权信号】合约代码:SECRETCODE-251231-60000-C|方向:买入|类型:Put|行权价:60000|到期日:2025-12-31|权利金上限:1|仓位:5%|有效期:5d",
    ];
    let secrets = ["0xSECRETADDR", "SECRETEVENTTEXT", "SECRETCODE"];
    for input in leaky_inputs {
        let e = parse_signal_text(input).unwrap_err();
        let rendered = format!("{} {} {:?}", e.code(), e.message(), e.field());
        for secret in secrets {
            assert!(
                !rendered.contains(secret),
                "error leaked '{secret}' for input starting {}",
                &input[..12.min(input.len())]
            );
        }
    }
}

#[test]
fn ac23_single_asset_class_type() {
    let c: onchainos::asset_class::AssetClass = onchainos::asset_class::AssetClass::Spot;
    assert_eq!(c.as_str(), "spot");
}

#[test]
fn envelope_fields_are_checked_in_order() {
    let text = "【Spot Signal】market:BTC/USDT|symbol:BTC|side:BUY|price:60000-65000|position:5%|ttl:1h";
    let mk = |schema: u32, delivery: &str, time: u64| V2Envelope {
        schema_version: schema,
        delivery_id: delivery.to_string(),
        signal_time: time,
        signal_text: text.to_string(),
    };
    assert_eq!(check_envelope(&mk(2, "abc123", 1)).unwrap().asset_class.as_str(), "spot");
    assert_eq!(check_envelope(&mk(1, "abc123", 1)).unwrap_err().code(), "invalid_schema_version");
    assert_eq!(check_envelope(&mk(2, "abc123", 0)).unwrap_err().code(), "invalid_signal_time");
    assert_eq!(check_envelope(&mk(2, "bad id", 1)).unwrap_err().code(), "invalid_delivery_id");
    assert_eq!(check_envelope(&mk(2, "", 1)).unwrap_err().code(), "invalid_delivery_id");
    assert_eq!(check_envelope(&mk(1, "bad id", 0)).unwrap_err().code(), "invalid_schema_version");
    assert_eq!(check_envelope(&mk(2, "bad id", 0)).unwrap_err().code(), "invalid_delivery_id");
    let mut bad_text = mk(2, "d-1", 1);
    bad_text.signal_text = "【SPOT】market:BTC".to_string();
    assert_eq!(check_envelope(&bad_text).unwrap_err().code(), "unknown_header");
}

#[test]
fn shape_errors_come_first() {
    assert_eq!(code(""), "empty_input");
    assert_eq!(code("【现货信号】市场:BTC\r方向:BUY"), "multi_line");
    let long = format!("【现货信号】市场:{}\n", "A".repeat(300));
    assert_eq!(code(&long), "too_long");
    assert_eq!(code("【Spot Signal】market:BTC/USDT|symbol:BTC|side:BUY|price:60000-65000|position:5%"), "field_count_error");
    assert_eq!(
        code("【Spot Signal】market:BTC/USDT|symbol:BTC|side:BUY|price:60000-65000|position:5%|ttl:1h|position:5%"),
        "field_count_error"
    );
    assert_eq!(code("【Spot Signal】"), "field_count_error");
    assert_eq!(code("【Prediction Signal】event:a@b|outcome:YES @0.5|settleDate:2025-12-31|position:5%|ttl:1d"), "forbidden_content");
    assert_eq!(code("【Prediction Signal】event:x|outcome:YES @0.5 @0.6|settleDate:2025-12-31|position:5%|ttl:1d"), "forbidden_content");
    assert_eq!(code("【Prediction Signal】event:x|outcome:YES|settleDate:2025-12-31|position:5%|ttl:1d"), "field_count_error");
    assert_eq!(code("【Prediction Signal】event:x|outcome:YES @0.5|odds:0.5|settleDate:2025-12-31|position:5%|ttl:1d"), "field_count_error");
}

#[test]
fn defi_labeled_fields_are_kept_verbatim() {
    let p = parse_signal_text(CANONICAL[6]).unwrap();
    match p.params {
        SignalParams::Defi(d) => {
            assert_eq!(d.chain, "Ethereum");
            assert_eq!(d.protocol_pool, "AaveV3");
            assert_eq!(d.apy, "5.5");
            assert_eq!(d.tvl, "1.2B");
            assert_eq!(d.token, "USDC");
            assert_eq!(d.redeem_terms, "活期");
        }
        _ => panic!("expected defi"),
    }
    assert_eq!(p.position_pct, "10");
    assert_eq!(p.ttl_sec, 604_800);
}

const VALID_TEXT: &str = "【Spot Signal】market:BTC/USDT|symbol:BTC|side:BUY|price:60000-65000|position:5%|ttl:1h";

fn envelope_json(schema: u32, delivery: &str, time: u64) -> String {
    format!(
        "{{\"schemaVersion\":{schema},\"deliveryId\":\"{delivery}\",\"signalTime\":{time},\"signalText\":\"{VALID_TEXT}\"}}"
    )
}

/// Decodes the envelope JSON as the command line does (anything that is not
/// an object of the four fields is `InvalidEnvelope`), then checks it.
fn parse_envelope(input: &str) -> Result<ParsedSignal, ParseError> {
    let v: serde_json::Value = serde_json::from_str(input).map_err(|_| ParseError::InvalidEnvelope)?;
    let o = v.as_object().ok_or(ParseError::InvalidEnvelope)?;
    if o.len() != 4 {
        return Err(ParseError::InvalidEnvelope);
    }
    let schema = o.get("schemaVersion").and_then(|x| x.as_u64()).ok_or(ParseError::InvalidEnvelope)?;
    let env = V2Envelope {
        schema_version: u32::try_from(schema).map_err(|_| ParseError::InvalidEnvelope)?,
        delivery_id: o.get("deliveryId").and_then(|x| x.as_str()).ok_or(ParseError::InvalidEnvelope)?.to_string(),
        signal_time: o.get("signalTime").and_then(|x| x.as_u64()).ok_or(ParseError::InvalidEnvelope)?,
        signal_text: o.get("signalText").and_then(|x| x.as_str()).ok_or(ParseError::InvalidEnvelope)?.to_string(),
    };
    check_envelope(&env)
}

#[test]
fn valid_envelope_delegates_to_text_parse() {
    let json = envelope_json(2, "abc123", 1_700_000_000_000);
    let parsed = parse_envelope(&json).unwrap();
    assert_eq!(parsed.asset_class.as_str(), "spot");
}

#[test]
fn rejects_bad_envelope_fields_with_distinct_codes() {
    assert_eq!(parse_envelope(&envelope_json(1, "abc123", 1)).unwrap_err().code(), "invalid_schema_version");
    assert_eq!(parse_envelope(&envelope_json(2, "abc123", 0)).unwrap_err().code(), "invalid_signal_time");
    assert_eq!(parse_envelope(&envelope_json(2, "bad id", 1)).unwrap_err().code(), "invalid_delivery_id");
    assert_eq!(parse_envelope("not json").unwrap_err().code(), "invalid_envelope");
}

#[test]
fn ac20_envelope() {
    let mk = |schema: u32, delivery: &str, time: u64| envelope_json(schema, delivery, time);
    assert!(parse_envelope(&mk(2, "abc123", 1)).is_ok());
    assert_eq!(parse_envelope(&mk(1, "abc123", 1)).unwrap_err().code(), "invalid_schema_version");
    assert_eq!(parse_envelope(&mk(2, "abc123", 0)).unwrap_err().code(), "invalid_signal_time");
    assert_eq!(parse_envelope(&mk(2, "bad id", 1)).unwrap_err().code(), "invalid_delivery_id");
}
