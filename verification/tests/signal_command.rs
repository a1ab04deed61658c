use onchainos::signal_command::{list_query, parse_route, parse_u64, ParseMode, ParseRoute};

#[test]
fn routes_follow_mode_and_first_char() {
    assert_eq!(parse_route(ParseMode::Auto, "【SPOT】x"), ParseRoute::Text);
    assert_eq!(parse_route(ParseMode::Auto, "{\"a\":1}"), ParseRoute::Envelope);
    assert_eq!(parse_route(ParseMode::Auto, ""), ParseRoute::Unsupported);
    assert_eq!(parse_route(ParseMode::Text, "{"), ParseRoute::Text);
    assert_eq!(parse_route(ParseMode::Envelope, "【"), ParseRoute::Envelope);
    assert_eq!(parse_route(ParseMode::Detect, "garbage"), ParseRoute::Detect);
}

#[test]
fn unsigned_parse_matches_std() {
    for s in ["0", "+7", "18446744073709551615", "", "+", "-1", "1e3", " 1", "18446744073709551616"] {
        assert_eq!(parse_u64(s), s.parse::<u64>().ok(), "input {s:?}");
    }
}

fn q(limit: Option<&str>) -> Result<String, String> {
    list_query(
        "1",
        None,
        None,
        None,
        None,
        None,
        Some("0xT".to_string()),
        None,
        None,
        None,
        None,
        limit.map(|s| s.to_string()),
        None,
    )
    .map(|q| q.limit)
}

#[test]
fn list_limit_is_checked_and_defaulted() {
    assert_eq!(q(None), Ok("20".to_string()));
    assert_eq!(q(Some("100")), Ok("100".to_string()));
    assert_eq!(q(Some("+5")), Ok("+5".to_string()));
    assert_eq!(q(Some("0")), Err("--limit must be between 1 and 100, got 0".to_string()));
    assert_eq!(q(Some("101")), Err("--limit must be between 1 and 100, got 101".to_string()));
    assert_eq!(q(Some("ten")), Err("--limit must be a number between 1 and 100".to_string()));
    let full = list_query(
        "501",
        Some("1,2".to_string()),
        None,
        None,
        None,
        None,
        None,
        None,
        None,
        None,
        None,
        None,
        Some("c1".to_string()),
    )
    .unwrap();
    assert_eq!(full.chain_index, "501");
    assert_eq!(full.wallet_type.as_deref(), Some("1,2"));
    assert_eq!(full.cursor.as_deref(), Some("c1"));
}
