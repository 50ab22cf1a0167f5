use tradingview_client::FloatBits;
use tradingview_client::JsonNumber;
use tradingview_client::ParsedTradingViewMessage;

#[test]
fn heartbeat_literal_round_trip() {
    let m = ParsedTradingViewMessage::from_string("~h~42").unwrap();
    assert!(matches!(m, ParsedTradingViewMessage::Ping(42)));
}

#[test]
fn heartbeat_zero() {
    let m = ParsedTradingViewMessage::from_string("~h~0").unwrap();
    assert!(matches!(m, ParsedTradingViewMessage::Ping(0)));
}

#[test]
fn heartbeat_non_numeric_suffix_fails() {
    assert!(ParsedTradingViewMessage::from_string("~h~4x2").is_err());
}

#[test]
fn heartbeat_empty_suffix_fails() {
    assert!(ParsedTradingViewMessage::from_string("~h~").is_err());
}

#[test]
fn heartbeat_overflowing_nonce_fails() {
    assert!(ParsedTradingViewMessage::from_string("~h~18446744073709551616").is_err());
}

#[test]
fn quote_completed_literal_example() {
    let m = ParsedTradingViewMessage::from_string(
        "{\"m\":\"quote_completed\",\"p\":[\"qs_000000000001\",\"NASDAQ:AAPL\"]}",
    )
    .unwrap();
    match m {
        ParsedTradingViewMessage::QuoteCompleted(qc) => {
            assert_eq!(qc.quote_session_id, "qs_000000000001");
            assert_eq!(qc.symbol, "NASDAQ:AAPL");
        },
        other => panic!("wrong variant: {:?}", other),
    }
}

#[test]
fn server_hello_recognized_by_marker_key() {
    let m = ParsedTradingViewMessage::from_string(
        "{\"session_id\":\"x\",\"javastudies\":[\"a\"],\"protocol\":\"json\"}",
    )
    .unwrap();
    assert!(matches!(m, ParsedTradingViewMessage::ServerHello(_)));
}

#[test]
fn simple_tags_dispatch() {
    let cases = [
        ("series_loading", "SeriesLoading"),
        ("symbol_resolved", "SymbolResolved"),
        ("series_completed", "SeriesCompleted"),
        ("study_loading", "StudyLoading"),
        ("study_error", "StudyError"),
        ("study_completed", "StudyCompleted"),
        ("tickmark_update", "TickmarkUpdate"),
        ("critical_error", "CriticalError"),
        ("protcol_error", "ProtocolError"),
        ("notify_user", "NotifyUser"),
    ];
    for (tag, variant) in cases {
        let payload = format!("{{\"m\":\"{}\",\"p\":[]}}", tag);
        let m = ParsedTradingViewMessage::from_string(&payload).unwrap();
        let got = match m {
            ParsedTradingViewMessage::SeriesLoading(_) => "SeriesLoading",
            ParsedTradingViewMessage::SymbolResolved(_) => "SymbolResolved",
            ParsedTradingViewMessage::SeriesCompleted(_) => "SeriesCompleted",
            ParsedTradingViewMessage::StudyLoading(_) => "StudyLoading",
            ParsedTradingViewMessage::StudyError(_) => "StudyError",
            ParsedTradingViewMessage::StudyCompleted(_) => "StudyCompleted",
            ParsedTradingViewMessage::TickmarkUpdate(_) => "TickmarkUpdate",
            ParsedTradingViewMessage::CriticalError(_) => "CriticalError",
            ParsedTradingViewMessage::ProtocolError(_) => "ProtocolError",
            ParsedTradingViewMessage::NotifyUser(_) => "NotifyUser",
            other => panic!("wrong variant: {:?}", other),
        };
        assert_eq!(got, variant);
    }
}

#[test]
fn unknown_tag_is_a_parse_failure() {
    assert!(ParsedTradingViewMessage::from_string("{\"m\":\"mystery\",\"p\":[]}").is_err());
}

#[test]
fn correctly_spelled_protocol_error_tag_is_unknown() {
    // The remote service sends the misspelled tag; the closed tag set
    // holds that spelling and nothing else.
    assert!(ParsedTradingViewMessage::from_string("{\"m\":\"protocol_error\",\"p\":[]}").is_err());
}

#[test]
fn non_json_payload_fails() {
    assert!(ParsedTradingViewMessage::from_string("hello there").is_err());
}

#[test]
fn non_object_json_payload_fails() {
    assert!(ParsedTradingViewMessage::from_string("[1,2,3]").is_err());
}

#[test]
fn missing_tag_fails() {
    assert!(ParsedTradingViewMessage::from_string("{\"p\":[]}").is_err());
}

#[test]
fn quote_series_data_sparse_fields() {
    let m = ParsedTradingViewMessage::from_string(
        "{\"m\":\"qsd\",\"p\":[\"qs_1\",{\"n\":\"BINANCE:BTCUSDT\",\"v\":{\"lp\":50000.5,\"volume\":123,\"rch\":null,\"trade_loaded\":true}}]}",
    )
    .unwrap();
    match m {
        ParsedTradingViewMessage::QuoteSeriesData(q) => {
            assert_eq!(q.quote_session_id, "qs_1");
            let u = q.quote_update;
            assert_eq!(u.symbol, "BINANCE:BTCUSDT");
            assert_eq!(u.lp, Some(FloatBits { bits: 50000.5f64.to_bits() }));
            assert_eq!(u.volume, Some(JsonNumber::Uint(123)));
            assert_eq!(u.rch, None);
            assert_eq!(u.trade_loaded, Some(true));
            assert_eq!(u.ch, None);
            assert_eq!(u.bid, None);
            assert_eq!(u.lp_time, None);
        },
        other => panic!("wrong variant: {:?}", other),
    }
}

#[test]
fn quote_series_data_float_volume_kept_as_float() {
    let m = ParsedTradingViewMessage::from_string(
        "{\"m\":\"qsd\",\"p\":[\"qs_1\",{\"n\":\"X\",\"v\":{\"volume\":12.5}}]}",
    )
    .unwrap();
    match m {
        ParsedTradingViewMessage::QuoteSeriesData(q) => {
            assert_eq!(q.quote_update.volume, Some(JsonNumber::Float(12.5f64.to_bits())));
        },
        other => panic!("wrong variant: {:?}", other),
    }
}

#[test]
fn quote_series_data_integer_strict_float_field_fails() {
    // `lp` must arrive as a floating-point number.
    assert!(ParsedTradingViewMessage::from_string(
        "{\"m\":\"qsd\",\"p\":[\"qs_1\",{\"n\":\"X\",\"v\":{\"lp\":5}}]}",
    )
    .is_err());
}

#[test]
fn quote_series_data_null_is_treated_as_absent_everywhere() {
    // Explicit JSON null and an absent key come to the same for every
    // sparse quote field.
    let m = ParsedTradingViewMessage::from_string(
        "{\"m\":\"qsd\",\"p\":[\"qs_1\",{\"n\":\"X\",\"v\":{\"lp\":null,\"volume\":null,\"lp_time\":null,\"trade_loaded\":null,\"rch\":null}}]}",
    )
    .unwrap();
    match m {
        ParsedTradingViewMessage::QuoteSeriesData(q) => {
            let u = q.quote_update;
            assert_eq!(u.lp, None);
            assert_eq!(u.volume, None);
            assert_eq!(u.lp_time, None);
            assert_eq!(u.trade_loaded, None);
            assert_eq!(u.rch, None);
        },
        other => panic!("wrong variant: {:?}", other),
    }
}

#[test]
fn quote_series_data_missing_symbol_fails() {
    assert!(ParsedTradingViewMessage::from_string(
        "{\"m\":\"qsd\",\"p\":[\"qs_1\",{\"v\":{}}]}",
    )
    .is_err());
}

#[test]
fn data_update_series_payload() {
    let m = ParsedTradingViewMessage::from_string(
        "{\"m\":\"du\",\"p\":[\"cs_1\",{\"sds_1\":{\"s\":[{\"i\":5,\"v\":[1700000000,1.5,2.5,0.5,2.0,10]}]}}]}",
    )
    .unwrap();
    match m {
        ParsedTradingViewMessage::DataUpdate(d) => {
            assert_eq!(d.chart_session_id, "cs_1");
            assert_eq!(d.update_key, "sds_1");
            let s = d.series_updates.unwrap();
            assert_eq!(s.len(), 1);
            assert_eq!(s[0].index, JsonNumber::Uint(5));
            assert_eq!(s[0].timestamp, JsonNumber::Uint(1700000000));
            assert_eq!(s[0].open, JsonNumber::Float(1.5f64.to_bits()));
            assert_eq!(s[0].volume, JsonNumber::Uint(10));
            assert!(d.study_updates.is_none());
        },
        other => panic!("wrong variant: {:?}", other),
    }
}

#[test]
fn data_update_series_without_candles() {
    let m = ParsedTradingViewMessage::from_string(
        "{\"m\":\"du\",\"p\":[\"cs_1\",{\"sds_1\":{\"ns\":{}}}]}",
    )
    .unwrap();
    match m {
        ParsedTradingViewMessage::DataUpdate(d) => {
            assert!(d.series_updates.is_none());
            assert!(d.study_updates.is_none());
        },
        other => panic!("wrong variant: {:?}", other),
    }
}

#[test]
fn data_update_study_payload() {
    let m = ParsedTradingViewMessage::from_string(
        "{\"m\":\"du\",\"p\":[\"cs_1\",{\"st2\":{\"st\":[{\"i\":3,\"v\":[1.0,2.5]}]}}]}",
    )
    .unwrap();
    match m {
        ParsedTradingViewMessage::DataUpdate(d) => {
            assert_eq!(d.update_key, "st2");
            let st = d.study_updates.unwrap();
            assert_eq!(st.len(), 1);
            assert_eq!(st[0].index, JsonNumber::Uint(3));
            assert_eq!(
                st[0].values,
                vec![
                    JsonNumber::Float(1.0f64.to_bits()),
                    JsonNumber::Float(2.5f64.to_bits()),
                ],
            );
            assert!(d.series_updates.is_none());
        },
        other => panic!("wrong variant: {:?}", other),
    }
}

#[test]
fn data_update_two_keys_fails() {
    assert!(ParsedTradingViewMessage::from_string(
        "{\"m\":\"du\",\"p\":[\"cs_1\",{\"sds_1\":{},\"st1\":{}}]}",
    )
    .is_err());
}

#[test]
fn data_update_zero_keys_fails() {
    assert!(ParsedTradingViewMessage::from_string("{\"m\":\"du\",\"p\":[\"cs_1\",{}]}").is_err());
}

#[test]
fn data_update_unknown_key_fails() {
    assert!(ParsedTradingViewMessage::from_string(
        "{\"m\":\"du\",\"p\":[\"cs_1\",{\"weird\":{}}]}",
    )
    .is_err());
}

#[test]
fn data_update_short_candle_fails() {
    assert!(ParsedTradingViewMessage::from_string(
        "{\"m\":\"du\",\"p\":[\"cs_1\",{\"sds_1\":{\"s\":[{\"i\":5,\"v\":[1,2]}]}}]}",
    )
    .is_err());
}

#[test]
fn timescale_update_empty_object_is_benign() {
    let m = ParsedTradingViewMessage::from_string(
        "{\"m\":\"timescale_update\",\"p\":[\"cs_1\",{}]}",
    )
    .unwrap();
    match m {
        ParsedTradingViewMessage::TimescaleUpdate(t) => {
            assert_eq!(t.chart_session_id, "cs_1");
            assert!(t.update_key.is_none());
            assert!(t.updates.is_none());
        },
        other => panic!("wrong variant: {:?}", other),
    }
}

#[test]
fn timescale_update_one_key() {
    let m = ParsedTradingViewMessage::from_string(
        "{\"m\":\"timescale_update\",\"p\":[\"cs_1\",{\"sds_1\":{\"s\":[{\"i\":0,\"v\":[1700000000,1.5,2.5,0.5,2.0,100]}]}}]}",
    )
    .unwrap();
    match m {
        ParsedTradingViewMessage::TimescaleUpdate(t) => {
            assert_eq!(t.update_key.as_deref(), Some("sds_1"));
            let ups = t.updates.unwrap();
            assert_eq!(ups.len(), 1);
            assert_eq!(ups[0].index, 0);
            assert_eq!(ups[0].timestamp, JsonNumber::Uint(1700000000));
            assert_eq!(ups[0].open, FloatBits { bits: 1.5f64.to_bits() });
            assert_eq!(ups[0].close, FloatBits { bits: 2.0f64.to_bits() });
            assert_eq!(ups[0].volume, JsonNumber::Uint(100));
        },
        other => panic!("wrong variant: {:?}", other),
    }
}

#[test]
fn timescale_update_float_volume_kept() {
    let m = ParsedTradingViewMessage::from_string(
        "{\"m\":\"timescale_update\",\"p\":[\"cs_1\",{\"sds_1\":{\"s\":[{\"i\":0,\"v\":[1700000000,1.5,2.5,0.5,2.0,100.25]}]}}]}",
    )
    .unwrap();
    match m {
        ParsedTradingViewMessage::TimescaleUpdate(t) => {
            let ups = t.updates.unwrap();
            assert_eq!(ups[0].volume, JsonNumber::Float(100.25f64.to_bits()));
        },
        other => panic!("wrong variant: {:?}", other),
    }
}

#[test]
fn timescale_update_float_timestamp_kept_natively() {
    let m = ParsedTradingViewMessage::from_string(
        "{\"m\":\"timescale_update\",\"p\":[\"cs_1\",{\"sds_1\":{\"s\":[{\"i\":0,\"v\":[1700000000.5,1.5,2.5,0.5,2.0,100]}]}}]}",
    )
    .unwrap();
    match m {
        ParsedTradingViewMessage::TimescaleUpdate(t) => {
            let ups = t.updates.unwrap();
            assert_eq!(ups[0].timestamp, JsonNumber::Float(1700000000.5f64.to_bits()));
        },
        other => panic!("wrong variant: {:?}", other),
    }
}

#[test]
fn timescale_update_two_keys_fails() {
    assert!(ParsedTradingViewMessage::from_string(
        "{\"m\":\"timescale_update\",\"p\":[\"cs_1\",{\"a\":{},\"b\":{}}]}",
    )
    .is_err());
}

#[test]
fn timescale_update_float_index_fails() {
    assert!(ParsedTradingViewMessage::from_string(
        "{\"m\":\"timescale_update\",\"p\":[\"cs_1\",{\"sds_1\":{\"s\":[{\"i\":1.5,\"v\":[1,1.0,1.0,1.0,1.0,1]}]}}]}",
    )
    .is_err());
}

#[test]
fn quote_completed_missing_parameters_fails() {
    assert!(ParsedTradingViewMessage::from_string(
        "{\"m\":\"quote_completed\",\"p\":[\"qs_1\"]}",
    )
    .is_err());
}
