use tradingview_client::ParsedTradingViewMessage;
use tradingview_client::decode;
use tradingview_client::decode_and_parse;
use tradingview_client::encode;

#[test]
fn encode_wraps_with_length_prefix() {
    assert_eq!(encode("abc"), "~m~3~m~abc");
}

#[test]
fn encode_empty_payload() {
    assert_eq!(encode(""), "~m~0~m~");
}

#[test]
fn decode_single_payload() {
    assert_eq!(decode("~m~3~m~abc").unwrap(), vec!["abc".to_string()]);
}

#[test]
fn decode_multiple_payloads() {
    assert_eq!(
        decode("~m~3~m~abc~m~2~m~hi").unwrap(),
        vec!["abc".to_string(), "hi".to_string()],
    );
}

#[test]
fn decode_empty_frame_has_no_payloads() {
    assert_eq!(decode("").unwrap(), Vec::<String>::new());
}

#[test]
fn decode_round_trips_encode() {
    let payload = "{\"m\":\"set_locale\",\"p\":[\"en\", \"US\"]}";
    assert_eq!(decode(&encode(payload)).unwrap(), vec![payload.to_string()]);
}

#[test]
fn decode_payload_containing_the_marker() {
    // The length prefix, not the marker, delimits the payload.
    assert_eq!(decode("~m~5~m~a~m~b").unwrap(), vec!["a~m~b".to_string()]);
}

#[test]
fn decode_rejects_missing_marker() {
    assert!(decode("xyz").is_err());
}

#[test]
fn decode_rejects_missing_length() {
    assert!(decode("~m~~m~abc").is_err());
}

#[test]
fn decode_rejects_non_numeric_length() {
    assert!(decode("~m~x~m~ab").is_err());
}

#[test]
fn decode_rejects_truncated_payload() {
    assert!(decode("~m~5~m~ab").is_err());
}

#[test]
fn decode_rejects_trailing_garbage() {
    assert!(decode("~m~2~m~hi!").is_err());
}

#[test]
fn decode_and_parse_heartbeat_frame() {
    let frame = encode("~h~42");
    let wrappers = decode_and_parse(&frame).unwrap();
    assert_eq!(wrappers.len(), 1);
    assert_eq!(wrappers[0].payload, "~h~42");
    assert!(matches!(wrappers[0].parsed_message, ParsedTradingViewMessage::Ping(42)));
}

#[test]
fn decode_and_parse_rejects_unparseable_payload() {
    let frame = encode("{\"m\":\"mystery\",\"p\":[]}");
    assert!(decode_and_parse(&frame).is_err());
}
