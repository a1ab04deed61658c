use onchainos::asset_class::AssetClass;
use onchainos::trade_signal::error::ParseError;
use onchainos::trade_signal::fields::FieldMap;
use onchainos::trade_signal::params::defi::parse as parse_defi_row;
use onchainos::trade_signal::params::option::check_contract_consistency;
use onchainos::trade_signal::params::perp::{check_direction, collect_take_profit};
use onchainos::trade_signal::params::spot::parse as parse_spot;
use onchainos::trade_signal::params::dispatch;
use onchainos::trade_signal::{Direction, Language, OptionType, OrderType, SignalParams};

fn f(parts: &[&str]) -> Vec<String> {
    parts.iter().map(|s| s.to_string()).collect()
}

#[test]
fn parses_full_defi_row() {
    let (params, pos, ttl) = parse_defi_row(
        &f(&[
            "X Layer",
            "ProtocolX USDT-USDG LP",
            "APY 18.6%",
            "TVL $2.4M",
            "USDT",
            "withdraw anytime",
            "Position 5%",
            "valid for 48h",
        ]),
        Language::En,
    )
    .unwrap();
    assert_eq!(pos, "5");
    assert_eq!(ttl, 172_800);
    match params {
        SignalParams::Defi(d) => {
            assert_eq!(d.apy, "18.6");
            assert_eq!(d.tvl, "$2.4M");
            assert_eq!(d.token, "USDT");
        }
        _ => panic!("expected defi"),
    }
}

#[test]
fn missing_field_is_field_count_error() {
    assert_eq!(
        parse_defi_row(
            &f(&[
                "X Layer",
                "ProtocolX USDT-USDG LP",
                "TVL $2.4M",
                "USDT",
                "withdraw anytime",
                "Position 5%",
                "valid for 48h",
            ]),
            Language::En,
        )
        .unwrap_err(),
        ParseError::FieldCountError
    );
}

#[test]
fn defi_row_chinese_keywords() {
    let (_, pos, ttl) = parse_defi_row(
        &f(&["X Layer", "池", "年化 5%", "锁仓 1.2B", "USDC", "活期", "仓位 10%", "有效期 7d"]),
        Language::Zh,
    )
    .unwrap();
    assert_eq!(pos, "10");
    assert_eq!(ttl, 604_800);
    assert_eq!(
        parse_defi_row(
            &f(&["X Layer", "池", "APY 5%", "锁仓 1.2B", "USDC", "活期", "仓位 10%", "有效期 7d"]),
            Language::Zh,
        )
        .unwrap_err(),
        ParseError::FieldCountError
    );
}

#[test]
fn long_tps_correct_side_non_monotonic_now_accepted() {
    let equal = vec!["62000".to_string(), "62000".to_string()];
    assert!(check_direction(Direction::Long, "60000", "61000", "59000", &equal).is_ok());
    let descending = vec!["63000".to_string(), "62000".to_string()];
    assert!(check_direction(Direction::Long, "60000", "61000", "59000", &descending).is_ok());
    let wrong_side = vec!["59500".to_string()];
    assert_eq!(
        check_direction(Direction::Long, "60000", "61000", "59000", &wrong_side).unwrap_err(),
        ParseError::DirectionConstraint
    );
}

#[test]
fn short_tps_correct_side_non_monotonic_now_accepted() {
    let equal = vec!["590".to_string(), "590".to_string()];
    assert!(check_direction(Direction::Short, "600", "610", "620", &equal).is_ok());
    let ascending = vec!["580".to_string(), "590".to_string()];
    assert!(check_direction(Direction::Short, "600", "610", "620", &ascending).is_ok());
}

#[test]
fn tp_slash_form_and_separate_form() {
    assert_eq!(
        collect_take_profit(Some("62000/63000/64000".to_string()), None, None, None).unwrap(),
        vec!["62000", "63000", "64000"]
    );
    assert_eq!(
        collect_take_profit(None, Some("62000".to_string()), Some("63000".to_string()), None).unwrap(),
        vec!["62000", "63000"]
    );
    assert_eq!(
        collect_take_profit(Some("62000".to_string()), Some("63000".to_string()), None, None).unwrap_err(),
        ParseError::DirectionConstraint
    );
    assert_eq!(
        collect_take_profit(Some("1/2/3/4".to_string()), None, None, None).unwrap_err(),
        ParseError::DirectionConstraint
    );
    assert_eq!(
        collect_take_profit(None, Some("62000".to_string()), None, Some("64000".to_string())).unwrap_err(),
        ParseError::DirectionConstraint
    );
}

#[test]
fn tp_parts_are_trimmed_and_checked() {
    assert_eq!(
        collect_take_profit(Some(" 2900 / 2800.50 ".to_string()), None, None, None).unwrap(),
        vec!["2900", "2800.5"]
    );
    assert_eq!(
        collect_take_profit(Some("2900//2800".to_string()), None, None, None).unwrap_err(),
        ParseError::DirectionConstraint
    );
    assert_eq!(
        collect_take_profit(Some("2900/abc".to_string()), None, None, None).unwrap_err(),
        ParseError::InvalidNumber
    );
    assert_eq!(collect_take_profit(None, None, None, None).unwrap_err(), ParseError::DirectionConstraint);
}

fn spot_fm(pairs: &[(&str, &str)]) -> FieldMap {
    let raw: Vec<(String, String)> = pairs.iter().map(|(k, v)| (k.to_string(), v.to_string())).collect();
    FieldMap::build(AssetClass::Spot, Language::En, &raw).expect("field map builds")
}

#[test]
fn slippage_above_five_percent_is_out_of_range() {
    let mut fm = spot_fm(&[
        ("market", "base"),
        ("symbol", "DEGEN"),
        ("side", "BUY"),
        ("price", "1-2"),
        ("tokenAddr", "0xabc"),
        ("slippage", "9%"),
    ]);
    assert_eq!(parse_spot(&mut fm).unwrap_err(), ParseError::OutOfRange);
}

#[test]
fn slippage_at_ceiling_parses() {
    let mut fm = spot_fm(&[
        ("market", "base"),
        ("symbol", "DEGEN"),
        ("side", "BUY"),
        ("price", "1-2"),
        ("tokenAddr", "0xabc"),
        ("slippage", "5%"),
    ]);
    let out = parse_spot(&mut fm).expect("parses");
    assert_eq!(out.slippage.as_deref(), Some("5"));
    assert_eq!(out.token_addr.as_deref(), Some("0xabc"));
}

#[test]
fn token_addr_xor_slippage_is_field_count_error() {
    let mut fm = spot_fm(&[
        ("market", "base"),
        ("symbol", "DEGEN"),
        ("side", "BUY"),
        ("price", "1-2"),
        ("tokenAddr", "0xabc"),
    ]);
    assert_eq!(parse_spot(&mut fm).unwrap_err(), ParseError::FieldCountError);
    let mut fm = spot_fm(&[
        ("market", "BTC/USDT"),
        ("symbol", "BTC"),
        ("side", "BUY"),
        ("price", "1-2"),
        ("slippage", "3%"),
    ]);
    assert_eq!(parse_spot(&mut fm).unwrap_err(), ParseError::FieldCountError);
}

#[test]
fn cex_form_without_onchain_keys_parses() {
    let mut fm = spot_fm(&[
        ("market", "BTC/USDT"),
        ("symbol", "BTC"),
        ("side", "BUY"),
        ("price", "1-2"),
    ]);
    let out = parse_spot(&mut fm).expect("parses");
    assert!(out.token_addr.is_none() && out.slippage.is_none());
    assert_eq!(out.order_type, OrderType::Market);
}

#[test]
fn contract_code_consistency() {
    assert!(check_contract_consistency("BTC-251231-60000-C", OptionType::Call, "60000", "2025-12-31").is_ok());
    assert!(check_contract_consistency("BTC-251231-60000.0-C", OptionType::Call, "60000", "2025-12-31").is_ok());
    for (code, t, k, e) in [
        ("BTC-251231-60000-C", OptionType::Put, "60000", "2025-12-31"),
        ("BTC-251231-60000-C", OptionType::Call, "59000", "2025-12-31"),
        ("BTC-251231-60000-C", OptionType::Call, "60000", "2025-12-30"),
        ("BTC-251231-60000", OptionType::Call, "60000", "2025-12-31"),
        ("BTC-2512X1-60000-C", OptionType::Call, "60000", "2025-12-31"),
        ("BTC-251231-60000-c", OptionType::Call, "60000", "2025-12-31"),
    ] {
        assert_eq!(check_contract_consistency(code, t, k, e), Err(ParseError::OptionFieldMismatch));
    }
}

#[test]
fn dispatch_tags_the_class() {
    let raw = vec![
        ("event".to_string(), "x".to_string()),
        ("outcome".to_string(), "YES @0.5".to_string()),
        ("settleDate".to_string(), "2025-1-5".to_string()),
    ];
    let mut fm = FieldMap::build(AssetClass::Prediction, Language::En, &raw).unwrap();
    match dispatch(AssetClass::Prediction, &mut fm).unwrap() {
        SignalParams::Prediction(p) => {
            assert_eq!(p.settle_date, "2025-01-05");
            assert_eq!(p.odds, "0.5");
        }
        _ => panic!("expected prediction"),
    }
    assert_eq!(fm.ensure_consumed(), Ok(()));
}
