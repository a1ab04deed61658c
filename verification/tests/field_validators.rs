use onchainos::trade_signal::fields::{
    contains_forbidden, equal, greater_than, less_than, parse_date, parse_decimal,
    parse_direction, parse_leverage, parse_margin_mode, parse_odds, parse_option_side,
    parse_option_type, parse_order_type, parse_outcome, parse_percent_max, parse_percent_nonneg,
    parse_position, parse_range, parse_side, parse_ttl, split_fields, FieldId, FieldMap,
};
use onchainos::asset_class::AssetClass;
use onchainos::trade_signal::error::ParseError;
use onchainos::trade_signal::{Direction, Language, MarginMode, OptionType, OrderType, Outcome, PriceRange, Side};

#[test]
fn position_boundaries() {
    assert_eq!(parse_position("0.1%").unwrap(), "0.1");
    assert_eq!(parse_position("20%").unwrap(), "20");
    assert_eq!(parse_position("5%").unwrap(), "5");
    assert_eq!(parse_position("0%"), Err(ParseError::OutOfRange));
    assert_eq!(parse_position("20.1%"), Err(ParseError::OutOfRange));
    assert_eq!(parse_position("5-10%"), Err(ParseError::OutOfRange));
    assert_eq!(parse_position("5"), Err(ParseError::OutOfRange));
}

#[test]
fn ttl_units_and_bounds() {
    assert_eq!(parse_ttl("5min").unwrap(), 300);
    assert_eq!(parse_ttl("7d").unwrap(), 604_800);
    assert_eq!(parse_ttl("1h").unwrap(), 3_600);
    assert_eq!(parse_ttl("24h").unwrap(), 86_400);
    assert_eq!(parse_ttl("4min"), Err(ParseError::OutOfRange));
    assert_eq!(parse_ttl("8d"), Err(ParseError::OutOfRange));
    assert_eq!(parse_ttl("30s"), Err(ParseError::OutOfRange));
}

#[test]
fn range_and_decimal() {
    assert_eq!(
        parse_range("60000-65000").unwrap(),
        PriceRange { lo: "60000".into(), hi: "65000".into() }
    );
    assert_eq!(parse_range("65000-60000"), Err(ParseError::OutOfRange));
    assert_eq!(parse_decimal("1e3"), Err(ParseError::InvalidNumber));
    assert_eq!(parse_decimal("1,000"), Err(ParseError::InvalidNumber));
    assert_eq!(parse_decimal("5%"), Err(ParseError::InvalidNumber));
}

#[test]
fn calendar_dates() {
    assert_eq!(parse_date("2024-02-29").unwrap(), "2024-02-29");
    assert_eq!(parse_date("2025-02-29"), Err(ParseError::InvalidDate));
    assert_eq!(parse_date("2025-13-01"), Err(ParseError::InvalidDate));
    assert_eq!(parse_date("12-31"), Err(ParseError::InvalidDate));
    assert_eq!(parse_date("2025-04-31"), Err(ParseError::InvalidDate));
}

#[test]
fn keyword_whitelists() {
    assert_eq!(parse_direction("LONG").unwrap(), Direction::Long);
    assert_eq!(parse_direction("做多"), Err(ParseError::IllegalKeyword));
    assert_eq!(parse_direction("L"), Err(ParseError::IllegalKeyword));
    assert_eq!(parse_option_side("买入").unwrap(), Side::Buy);
    assert_eq!(parse_side("买入"), Err(ParseError::IllegalKeyword));
}

#[test]
fn forbidden_scan() {
    assert!(contains_forbidden("【现货】市场:BTC https://x.io"));
    assert!(contains_forbidden("@alpha"));
    assert!(contains_forbidden("gm 🚀"));
    assert!(!contains_forbidden("【现货】市场:BTC/USDT|方向:BUY"));
}

#[test]
fn forbidden_scan_extended_emoji_blocks() {
    for s in ["a™b", "up ←", "⌚ time", "alarm ⏰", "box ■", "dot ●"] {
        assert!(contains_forbidden(s), "expected forbidden: {s:?}");
    }
    assert!(!contains_forbidden("【期权】合约代码:BTC-251231-60000-C|方向:买入|类型:Call"));
}

#[test]
fn leverage_rejects_zero_and_non_integer() {
    assert_eq!(parse_leverage("10").unwrap(), 10);
    assert_eq!(parse_leverage("1").unwrap(), 1);
    assert_eq!(parse_leverage("0"), Err(ParseError::OutOfRange));
    assert_eq!(parse_leverage("10.5"), Err(ParseError::OutOfRange));
    assert_eq!(parse_leverage("-5"), Err(ParseError::OutOfRange));
    assert_eq!(parse_leverage(""), Err(ParseError::OutOfRange));
    assert_eq!(parse_leverage("x"), Err(ParseError::OutOfRange));
}

#[test]
fn keyword_whitelists_reject_non_canonical() {
    assert_eq!(parse_order_type("market").unwrap(), OrderType::Market);
    assert_eq!(parse_order_type("limit").unwrap(), OrderType::Limit);
    assert_eq!(parse_order_type("MARKET"), Err(ParseError::IllegalKeyword));
    assert_eq!(parse_order_type("stop"), Err(ParseError::IllegalKeyword));
    assert_eq!(parse_margin_mode("cross").unwrap(), MarginMode::Cross);
    assert_eq!(parse_margin_mode("isolated").unwrap(), MarginMode::Isolated);
    assert_eq!(parse_margin_mode("CROSS"), Err(ParseError::IllegalKeyword));
    assert_eq!(parse_margin_mode("full"), Err(ParseError::IllegalKeyword));
    assert_eq!(parse_option_type("Call").unwrap(), OptionType::Call);
    assert_eq!(parse_option_type("Put").unwrap(), OptionType::Put);
    assert_eq!(parse_option_type("call"), Err(ParseError::IllegalKeyword));
    assert_eq!(parse_option_type("CALL"), Err(ParseError::IllegalKeyword));
}

#[test]
fn decimal_comparisons_are_exact() {
    assert!(less_than("0.1", "0.10000000000000000001"));
    assert!(!less_than("1.0", "1"));
    assert!(equal("1.0", "1"));
    assert!(equal("007.50", "7.5"));
    assert!(greater_than("65000", "60000.5"));
    assert!(!less_than("x", "1"));
    assert!(!equal("1", "1e0"));
    assert_eq!(parse_decimal("007.500").unwrap(), "7.5");
    assert_eq!(parse_decimal("0.0").unwrap(), "0");
}

#[test]
fn percent_parsers() {
    assert_eq!(parse_percent_max("5%", "5").unwrap(), "5");
    assert_eq!(parse_percent_max("5.01%", "5"), Err(ParseError::OutOfRange));
    assert_eq!(parse_percent_max("5", "5"), Err(ParseError::InvalidNumber));
    assert_eq!(parse_percent_nonneg("18.60%").unwrap(), "18.6");
    assert_eq!(parse_percent_nonneg("-1%"), Err(ParseError::InvalidNumber));
}

#[test]
fn odds_and_outcomes() {
    assert_eq!(parse_odds("0.65").unwrap(), "0.65");
    assert_eq!(parse_odds("1").unwrap(), "1");
    assert_eq!(parse_odds("0").unwrap(), "0");
    assert_eq!(parse_odds("1.5"), Err(ParseError::OutOfRange));
    assert_eq!(parse_outcome("UP").unwrap(), Outcome::Up);
    assert_eq!(parse_outcome("yes"), Err(ParseError::IllegalKeyword));
}

#[test]
fn split_fields_shapes() {
    let f = split_fields(" 市场 : BTC/USDT | 币种:BTC ").unwrap();
    assert_eq!(f, vec![("市场".to_string(), "BTC/USDT".to_string()), ("币种".to_string(), "BTC".to_string())]);
    assert_eq!(split_fields("a:1||b:2"), Err(ParseError::EmptyField));
    assert_eq!(split_fields("a:"), Err(ParseError::EmptyField));
    assert_eq!(split_fields("novalue"), Err(ParseError::ForbiddenContent));
    assert_eq!(split_fields(":1"), Err(ParseError::ForbiddenContent));
    assert_eq!(split_fields("   "), Err(ParseError::FieldCountError));
}

#[test]
fn field_map_build_and_consume() {
    let raw = vec![
        ("pair".to_string(), "BTC-PERP".to_string()),
        ("stopLoss".to_string(), "1".to_string()),
    ];
    let mut fm = FieldMap::build(AssetClass::Perp, Language::En, &raw).unwrap();
    assert_eq!(fm.take(FieldId::Pair), Some("BTC-PERP".to_string()));
    assert_eq!(fm.take(FieldId::Pair), None);
    assert_eq!(fm.ensure_consumed(), Err(ParseError::FieldCountError));
    assert_eq!(fm.require(FieldId::StopLoss), Ok("1".to_string()));
    assert_eq!(fm.require(FieldId::Leverage), Err(ParseError::FieldCountError));
    assert_eq!(fm.ensure_consumed(), Ok(()));

    let dup_sl = vec![
        ("stopLoss".to_string(), "1".to_string()),
        ("stopLoss".to_string(), "2".to_string()),
    ];
    assert_eq!(
        FieldMap::build(AssetClass::Perp, Language::En, &dup_sl).unwrap_err(),
        ParseError::DirectionConstraint
    );
    let mixed = vec![("交易对".to_string(), "BTC-PERP".to_string())];
    assert_eq!(FieldMap::build(AssetClass::Perp, Language::En, &mixed).unwrap_err(), ParseError::LanguageMix);
    let unknown = vec![("foo".to_string(), "1".to_string())];
    assert_eq!(FieldMap::build(AssetClass::Perp, Language::En, &unknown).unwrap_err(), ParseError::ForbiddenContent);
}

#[test]
fn less_than_is_exact_decimal_order() {
    assert!(!less_than("2.0", "2"));
    assert!(less_than("1.5", "2"));
    assert!(!less_than("1e3", "2000"));
    assert!(!less_than("2000", "1e3"));
    for a in ["0", "1.5", "2", "2.0", "10"] {
        assert!(!less_than(a, a));
        for b in ["0", "1.5", "2", "2.0", "10"] {
            assert!(!(less_than(a, b) && less_than(b, a)));
        }
    }
}
