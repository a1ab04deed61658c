use onchainos::asset_class::AssetClass;
use onchainos::trade_signal::error::ParseError;
use onchainos::trade_signal::format::{detect_format, InputFormat};
use onchainos::trade_signal::header::{parse_header, parse_title};
use onchainos::trade_signal::Language;

#[test]
fn first_char_brace_is_v1() {
    assert_eq!(detect_format("{\"schemaVersion\":2}"), InputFormat::V1JsonSchema);
}

#[test]
fn first_char_cjk_bracket_is_v2() {
    assert_eq!(detect_format("【\u{73b0}\u{8d27}】\u{5e02}\u{573a}:BTC/USDT"), InputFormat::V2Text);
}

#[test]
fn empty_or_ws_or_other_is_unsupported() {
    assert_eq!(detect_format(""), InputFormat::Unsupported);
    assert_eq!(detect_format(" 【\u{73b0}\u{8d27}】"), InputFormat::Unsupported);
    assert_eq!(detect_format("\t{"), InputFormat::Unsupported);
    assert_eq!(detect_format("[\u{73b0}\u{8d27}]"), InputFormat::Unsupported);
    assert_eq!(detect_format("hello"), InputFormat::Unsupported);
}

#[test]
fn matches_every_whitelist_header() {
    assert_eq!(
        parse_header("【现货】市场:BTC/USDT").unwrap(),
        (AssetClass::Spot, Language::Zh, "市场:BTC/USDT")
    );
    assert_eq!(
        parse_header("【PERP】pair:ETH-PERP").unwrap(),
        (AssetClass::Perp, Language::En, "pair:ETH-PERP")
    );
    assert_eq!(parse_header("【预测】").unwrap().0, AssetClass::Prediction);
    assert_eq!(parse_header("【OPTION】").unwrap().1, Language::En);
    assert_eq!(parse_header("【理财】").unwrap().0, AssetClass::Defi);
}

#[test]
fn rejects_unknown_space_and_half_width() {
    assert_eq!(parse_header("【unknown】x"), Err(ParseError::UnknownHeader));
    assert_eq!(parse_header(" 【现货】x"), Err(ParseError::UnknownHeader));
    assert_eq!(parse_header("[现货]x"), Err(ParseError::UnknownHeader));
    assert_eq!(parse_header("现货|x"), Err(ParseError::UnknownHeader));
}

#[test]
fn titles_open_signal_texts() {
    assert_eq!(
        parse_title("【DeFi 信号】链:Ethereum").unwrap(),
        (AssetClass::Defi, Language::Zh, "链:Ethereum")
    );
    assert_eq!(
        parse_title("【Futures Signal】pair:SOL-PERP").unwrap(),
        (AssetClass::Perp, Language::En, "pair:SOL-PERP")
    );
    assert_eq!(parse_title("【预测市场信号】").unwrap().0, AssetClass::Prediction);
    assert_eq!(parse_title("【现货】市场:BTC"), Err(ParseError::UnknownHeader));
    assert_eq!(parse_title(" 【现货信号】市场:BTC"), Err(ParseError::UnknownHeader));
    assert_eq!(parse_header("【现货信号】市场:BTC"), Err(ParseError::UnknownHeader));
}
