use tradingview_client::FloatBits;
use tradingview_client::JsonNumber;
use tradingview_client::ParsedTradingViewMessage;
use tradingview_client::ProcessWarning;
use tradingview_client::QuoteSeriesDataMessage;
use tradingview_client::QuoteSeriesDataUpdate;
use tradingview_client::StatefulMessageProcessor;
use tradingview_client::StudyUpdate;
use tradingview_client::TimescaleUpdate;
use tradingview_client::TimescaleUpdatedMessage;

fn empty_quote_update(symbol: &str) -> QuoteSeriesDataUpdate {
    QuoteSeriesDataUpdate {
        symbol: symbol.to_string(),
        volume: None,
        ch: None,
        chp: None,
        rch: None,
        rchp: None,
        rtc: None,
        rtc_time: None,
        lp: None,
        lp_time: None,
        ask: None,
        ask_size: None,
        bid: None,
        bid_size: None,
        trade_loaded: None,
    }
}

fn quote_message(update: QuoteSeriesDataUpdate) -> ParsedTradingViewMessage {
    ParsedTradingViewMessage::QuoteSeriesData(QuoteSeriesDataMessage {
        quote_session_id: "qs_000000000001".to_string(),
        quote_update: update,
    })
}

fn bits(x: f64) -> FloatBits {
    FloatBits { bits: x.to_bits() }
}

fn candle(index: u64) -> TimescaleUpdate {
    TimescaleUpdate {
        index,
        timestamp: JsonNumber::Uint(1700000000),
        open: bits(1.0),
        high: bits(2.0),
        low: bits(0.5),
        close: bits(1.5),
        volume: JsonNumber::Uint(100),
    }
}

#[test]
fn first_quote_update_is_taken_whole() {
    let mut p = StatefulMessageProcessor::default();
    let mut u = empty_quote_update("X");
    u.lp = Some(bits(10.5));
    u.volume = Some(JsonNumber::Uint(3));
    let warnings = p.process_message(&quote_message(u.clone()), 1000);
    assert!(warnings.is_empty());
    assert_eq!(p.quote_update.as_ref().unwrap(), &u);
    assert_eq!(p.last_quote_update, Some(1000));
}

#[test]
fn quote_merge_is_idempotent() {
    // Applying the same quote update twice yields the same held state
    // as applying it once: the merge is not additive.
    let mut once = StatefulMessageProcessor::default();
    let mut twice = StatefulMessageProcessor::default();
    let mut u = empty_quote_update("X");
    u.lp = Some(bits(10.5));
    u.ask = Some(bits(10.6));
    let m = quote_message(u);
    once.process_message(&m, 1000);
    twice.process_message(&m, 1000);
    twice.process_message(&m, 1000);
    assert_eq!(once.quote_update, twice.quote_update);
    assert_eq!(once.last_quote_update, twice.last_quote_update);
}

#[test]
fn quote_merge_never_clears_a_set_field() {
    // A later update omitting a field leaves the held value untouched.
    let mut p = StatefulMessageProcessor::default();
    let mut first = empty_quote_update("X");
    first.lp = Some(bits(10.5));
    first.ch = Some(bits(0.25));
    first.trade_loaded = Some(true);
    p.process_message(&quote_message(first), 1000);

    let mut second = empty_quote_update("X");
    second.lp = Some(bits(11.0));
    p.process_message(&quote_message(second), 2000);

    let held = p.quote_update.as_ref().unwrap();
    assert_eq!(held.lp, Some(bits(11.0)));
    assert_eq!(held.ch, Some(bits(0.25)));
    assert_eq!(held.trade_loaded, Some(true));
    assert_eq!(p.last_quote_update, Some(2000));
}

#[test]
fn quote_merge_overwrites_trade_loaded_when_present() {
    let mut p = StatefulMessageProcessor::default();
    let mut first = empty_quote_update("X");
    first.trade_loaded = Some(false);
    p.process_message(&quote_message(first), 1000);

    let mut second = empty_quote_update("X");
    second.trade_loaded = Some(true);
    p.process_message(&quote_message(second), 2000);

    assert_eq!(p.quote_update.as_ref().unwrap().trade_loaded, Some(true));
}

#[test]
fn timescale_single_candle_replaces_wholesale() {
    let mut p = StatefulMessageProcessor::default();
    let m = ParsedTradingViewMessage::TimescaleUpdate(TimescaleUpdatedMessage {
        chart_session_id: "cs_000000000001".to_string(),
        update_key: Some("sds_1".to_string()),
        updates: Some(vec![candle(7)]),
    });
    let warnings = p.process_message(&m, 500);
    assert!(warnings.is_empty());
    assert_eq!(p.timescale_update.as_ref().unwrap().index, 7);
    assert_eq!(p.last_timescale_update, Some(500));
}

#[test]
fn timescale_zero_candles_warns_and_changes_nothing() {
    let mut p = StatefulMessageProcessor::default();
    let m = ParsedTradingViewMessage::TimescaleUpdate(TimescaleUpdatedMessage {
        chart_session_id: "cs_1".to_string(),
        update_key: Some("sds_1".to_string()),
        updates: Some(vec![]),
    });
    let warnings = p.process_message(&m, 500);
    assert_eq!(warnings, vec![ProcessWarning::EmptyTimescaleUpdates]);
    assert!(p.timescale_update.is_none());
    assert!(p.last_timescale_update.is_none());
}

#[test]
fn timescale_two_candles_warns_and_changes_nothing() {
    let mut p = StatefulMessageProcessor::default();
    let m = ParsedTradingViewMessage::TimescaleUpdate(TimescaleUpdatedMessage {
        chart_session_id: "cs_1".to_string(),
        update_key: Some("sds_1".to_string()),
        updates: Some(vec![candle(1), candle(2)]),
    });
    let warnings = p.process_message(&m, 500);
    assert_eq!(warnings, vec![ProcessWarning::MultipleTimescaleUpdates]);
    assert!(p.timescale_update.is_none());
    assert!(p.last_timescale_update.is_none());
}

#[test]
fn timescale_missing_updates_warns() {
    let mut p = StatefulMessageProcessor::default();
    let m = ParsedTradingViewMessage::TimescaleUpdate(TimescaleUpdatedMessage {
        chart_session_id: "cs_1".to_string(),
        update_key: None,
        updates: None,
    });
    let warnings = p.process_message(&m, 500);
    assert_eq!(warnings, vec![ProcessWarning::NoTimescaleUpdates]);
    assert!(p.timescale_update.is_none());
}

#[test]
fn data_update_exactly_one_policy_for_studies() {
    let mut p = StatefulMessageProcessor::default();
    let two_rows = ParsedTradingViewMessage::from_string(
        "{\"m\":\"du\",\"p\":[\"cs_1\",{\"st2\":{\"st\":[{\"i\":1,\"v\":[1.0]},{\"i\":2,\"v\":[2.0]}]}}]}",
    )
    .unwrap();
    let warnings = p.process_message(&two_rows, 500);
    assert_eq!(warnings, vec![ProcessWarning::MultipleStudyUpdates]);
    assert!(p.study_update.is_none());
    assert!(p.last_study_update.is_none());

    let one_row = ParsedTradingViewMessage::from_string(
        "{\"m\":\"du\",\"p\":[\"cs_1\",{\"st2\":{\"st\":[{\"i\":3,\"v\":[4.5]}]}}]}",
    )
    .unwrap();
    let warnings = p.process_message(&one_row, 600);
    assert!(warnings.is_empty());
    let held: &StudyUpdate = p.study_update.as_ref().unwrap();
    assert_eq!(held.index, JsonNumber::Uint(3));
    assert_eq!(p.last_study_update, Some(600));
}

#[test]
fn data_update_exactly_one_policy_for_series() {
    let mut p = StatefulMessageProcessor::default();
    let empty_list = ParsedTradingViewMessage::from_string(
        "{\"m\":\"du\",\"p\":[\"cs_1\",{\"sds_1\":{\"s\":[]}}]}",
    )
    .unwrap();
    let warnings = p.process_message(&empty_list, 500);
    assert_eq!(warnings, vec![ProcessWarning::EmptySeriesUpdates]);
    assert!(p.series_update.is_none());

    let one = ParsedTradingViewMessage::from_string(
        "{\"m\":\"du\",\"p\":[\"cs_1\",{\"sds_1\":{\"s\":[{\"i\":5,\"v\":[1700000000,1.5,2.5,0.5,2.0,10]}]}}]}",
    )
    .unwrap();
    let warnings = p.process_message(&one, 600);
    assert!(warnings.is_empty());
    assert_eq!(p.series_update.as_ref().unwrap().index, JsonNumber::Uint(5));
    assert_eq!(p.last_series_update, Some(600));
}

#[test]
fn unrelated_messages_change_nothing() {
    let mut p = StatefulMessageProcessor::default();
    let warnings = p.process_message(&ParsedTradingViewMessage::Ping(1), 500);
    assert!(warnings.is_empty());
    assert!(p.quote_update.is_none());
    assert!(p.timescale_update.is_none());
    assert!(p.study_update.is_none());
    assert!(p.series_update.is_none());
}
