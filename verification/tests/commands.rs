use tradingview_client::TradingViewSymbols;
use tradingview_client::parse_u64_decimal;
use tradingview_client::u64_to_decimal_string;

#[test]
fn decimal_rendering() {
    assert_eq!(u64_to_decimal_string(0), "0");
    assert_eq!(u64_to_decimal_string(7), "7");
    assert_eq!(u64_to_decimal_string(1234567890123), "1234567890123");
    assert_eq!(u64_to_decimal_string(u64::MAX), "18446744073709551615");
}

#[test]
fn decimal_parsing() {
    assert_eq!(parse_u64_decimal("42"), Some(42));
    assert_eq!(parse_u64_decimal("0"), Some(0));
    assert_eq!(parse_u64_decimal("18446744073709551615"), Some(u64::MAX));
    assert_eq!(parse_u64_decimal("18446744073709551616"), None);
    assert_eq!(parse_u64_decimal(""), None);
    assert_eq!(parse_u64_decimal("12a"), None);
    assert_eq!(parse_u64_decimal("-1"), None);
}

#[test]
fn session_ids_are_zero_padded_to_twelve_places() {
    assert_eq!(tradingview_client::chart_session_id(1), "cs_000000000001");
    assert_eq!(tradingview_client::quote_session_id(12), "qs_000000000012");
    assert_eq!(
        tradingview_client::chart_session_id(1234567890123),
        "cs_1234567890123",
    );
}

#[test]
fn study_ids_start_at_two() {
    assert_eq!(tradingview_client::study_id(0), "st2");
    assert_eq!(tradingview_client::study_id(1), "st3");
}

#[test]
fn pong_echoes_the_nonce() {
    assert_eq!(tradingview_client::pong(42), "~h~42");
    assert_eq!(tradingview_client::pong(0), "~h~0");
}

#[test]
fn auth_and_locale_commands() {
    assert_eq!(
        tradingview_client::set_auth_token("unauthorized_user_token"),
        "{\"m\":\"set_auth_token\",\"p\":[\"unauthorized_user_token\"]}",
    );
    assert_eq!(
        tradingview_client::set_locale("en", "US"),
        "{\"m\":\"set_locale\",\"p\":[\"en\", \"US\"]}",
    );
}

#[test]
fn chart_session_commands() {
    assert_eq!(
        tradingview_client::chart_create_session("cs_000000000001"),
        "{\"m\":\"chart_create_session\",\"p\":[\"cs_000000000001\",\"\"]}",
    );
    assert_eq!(
        tradingview_client::switch_timezone("cs_000000000001", "exchange"),
        "{\"m\":\"switch_timezone\",\"p\":[\"cs_000000000001\",\"exchange\"]}",
    );
    assert_eq!(
        tradingview_client::resolve_symbol("cs_000000000001", "sds_sym_1", "SYM"),
        "{\"m\":\"resolve_symbol\",\"p\":[\"cs_000000000001\",\"sds_sym_1\", \"SYM\"]}",
    );
    assert_eq!(
        tradingview_client::create_series("cs_000000000001", "sds_1", "s1", "sds_sym_1", "5", 300),
        "{\"m\":\"create_series\",\"p\":[\"cs_000000000001\",\"sds_1\",\"s1\",\"sds_sym_1\",\"5\",300,\"\"]}",
    );
    assert_eq!(
        tradingview_client::request_more_tickmarks("cs_1", "sds_1", 10),
        "{\"m\":\"request_more_tickmarks\",\"p\":[\"cs_1\",\"sds_1\",10]}",
    );
    assert_eq!(
        tradingview_client::request_more_data("cs_1", "sds_1", 1000),
        "{\"m\":\"request_more_data\",\"p\":[\"cs_1\",\"sds_1\",1000]}",
    );
    assert_eq!(
        tradingview_client::create_study("cs_1", "st2", "st1", "sds_1", "Script@tv-scripting-101!", "{}"),
        "{\"m\":\"create_study\",\"p\":[\"cs_1\",\"st2\",\"st1\",\"sds_1\",\"Script@tv-scripting-101!\",{}]}",
    );
}

#[test]
fn quote_session_commands() {
    assert_eq!(
        tradingview_client::quote_create_session("qs_000000000001"),
        "{\"m\":\"quote_create_session\",\"p\":[\"qs_000000000001\",\"\"]}",
    );
    assert_eq!(
        tradingview_client::quote_add_symbols("qs_1", "SYM"),
        "{\"m\":\"quote_add_symbols\",\"p\":[\"qs_1\",\"SYM\"]}",
    );
    assert_eq!(
        tradingview_client::quote_fast_symbols("qs_1", "SYM"),
        "{\"m\":\"quote_fast_symbols\",\"p\":[\"qs_1\",\"SYM\"]}",
    );
    let fields = tradingview_client::quote_set_fields("qs_1");
    assert!(fields.starts_with("{\"m\":\"quote_set_fields\",\"p\":[\"qs_1\",\"base-currency-logoid\","));
    assert!(fields.ends_with("\"measure\"]}"));
    assert!(fields.contains("\"lp\",\"lp_time\""));
    assert!(fields.contains("\"volume\""));
}

#[test]
fn build_symbol_without_currency() {
    assert_eq!(
        TradingViewSymbols::build_symbol("splits", None, "regular", "BINANCE:BTCUSDT"),
        "={\\\"adjustment\\\":\\\"splits\\\",\\\"session\\\":\\\"regular\\\",\\\"symbol\\\":\\\"BINANCE:BTCUSDT\\\"}",
    );
}

#[test]
fn build_symbol_with_currency() {
    assert_eq!(
        TradingViewSymbols::build_symbol("splits", Some("USD"), "extended", "AMEX:SPY"),
        "={\\\"adjustment\\\":\\\"splits\\\",\\\"currency-id\\\":\\\"USD\\\",\\\"session\\\":\\\"extended\\\",\\\"symbol\\\":\\\"AMEX:SPY\\\"}",
    );
}
