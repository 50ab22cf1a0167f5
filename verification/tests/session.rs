use tradingview_client::DataUpdateMessage;
use tradingview_client::MessageKind;
use tradingview_client::MessagePredicate;
use tradingview_client::ParsedTradingViewMessage;
use tradingview_client::QuoteCompletedMessage;
use tradingview_client::QuoteSeriesDataMessage;
use tradingview_client::QuoteSeriesDataUpdate;
use tradingview_client::SeriesCompletedMessage;
use tradingview_client::SeriesLoadingMessage;
use tradingview_client::ServerHelloMessage;
use tradingview_client::SessionAction;
use tradingview_client::SessionError;
use tradingview_client::SessionEvent;
use tradingview_client::StreamAction;
use tradingview_client::StudyCompletedMessage;
use tradingview_client::StudyLoadingMessage;
use tradingview_client::SymbolResolvedMessage;
use tradingview_client::TimescaleUpdatedMessage;
use tradingview_client::TradingViewClient;
use tradingview_client::TradingViewClientConfig;
use tradingview_client::TradingViewClientMode;
use tradingview_client::FloatBits;
use tradingview_client::streaming_step;

fn config(mode: TradingViewClientMode) -> TradingViewClientConfig {
    TradingViewClientConfig {
        name: "client".to_string(),
        auth_token: "unauthorized_user_token".to_string(),
        chart_symbols: vec!["CHART:SYM".to_string()],
        quote_symbols: vec!["QUOTE:SYM".to_string()],
        indicators: vec!["{\"text\":\"indicator-script\"}".to_string()],
        timeframe: Some("5".to_string()),
        range: Some(300),
        mode,
    }
}

fn matched(m: ParsedTradingViewMessage) -> SessionEvent {
    SessionEvent::Matched(m)
}

fn hello() -> ParsedTradingViewMessage {
    ParsedTradingViewMessage::ServerHello(ServerHelloMessage {})
}

fn timescale() -> ParsedTradingViewMessage {
    ParsedTradingViewMessage::TimescaleUpdate(TimescaleUpdatedMessage {
        chart_session_id: "cs_000000000001".to_string(),
        update_key: None,
        updates: None,
    })
}

fn study_data_update() -> ParsedTradingViewMessage {
    ParsedTradingViewMessage::from_string(
        "{\"m\":\"du\",\"p\":[\"cs_000000000001\",{\"st2\":{\"st\":[{\"i\":1,\"v\":[1.0]}]}}]}",
    )
    .unwrap()
}

fn quote_completed() -> ParsedTradingViewMessage {
    ParsedTradingViewMessage::QuoteCompleted(QuoteCompletedMessage {
        quote_session_id: "qs_000000000001".to_string(),
        symbol: "QUOTE:SYM".to_string(),
    })
}

fn quote_last_price() -> ParsedTradingViewMessage {
    ParsedTradingViewMessage::QuoteSeriesData(QuoteSeriesDataMessage {
        quote_session_id: "qs_000000000001".to_string(),
        quote_update: QuoteSeriesDataUpdate {
            symbol: "QUOTE:SYM".to_string(),
            volume: None,
            ch: None,
            chp: None,
            rch: None,
            rchp: None,
            rtc: None,
            rtc_time: None,
            lp: Some(FloatBits { bits: 10.5f64.to_bits() }),
            lp_time: None,
            ask: None,
            ask_size: None,
            bid: None,
            bid_size: None,
            trade_loaded: None,
        },
    })
}

fn expect_wait(step: &tradingview_client::SessionStep, kind: MessageKind, timeout: u64) {
    assert_eq!(
        step.next,
        SessionAction::Wait(MessagePredicate::Kind(kind), timeout),
    );
}

#[test]
fn bounded_run_collects_one_record_per_step() {
    // A full bounded-mode run over one chart symbol with one
    // indicator and one quote symbol: the snapshot holds exactly one
    // greeting record, one record per per-chart kind, and one record
    // per per-quote kind.
    let mut client = TradingViewClient::new(config(TradingViewClientMode::Standard));

    let step = client.step(SessionEvent::Started);
    assert!(step.sends.is_empty());
    expect_wait(&step, MessageKind::ServerHello, 5000);

    let step = client.step(matched(hello()));
    assert_eq!(step.sends.len(), 4);
    assert_eq!(
        step.sends[0],
        "{\"m\":\"set_auth_token\",\"p\":[\"unauthorized_user_token\"]}",
    );
    assert_eq!(step.sends[1], "{\"m\":\"set_locale\",\"p\":[\"en\", \"US\"]}");
    assert_eq!(
        step.sends[2],
        "{\"m\":\"chart_create_session\",\"p\":[\"cs_000000000001\",\"\"]}",
    );
    assert_eq!(
        step.sends[3],
        "{\"m\":\"resolve_symbol\",\"p\":[\"cs_000000000001\",\"sds_sym_1\", \"CHART:SYM\"]}",
    );
    expect_wait(&step, MessageKind::SymbolResolved, 2000);

    let step = client.step(matched(ParsedTradingViewMessage::SymbolResolved(
        SymbolResolvedMessage {},
    )));
    assert_eq!(step.sends.len(), 2);
    assert_eq!(
        step.sends[0],
        "{\"m\":\"create_series\",\"p\":[\"cs_000000000001\",\"sds_1\",\"s1\",\"sds_sym_1\",\"5\",300,\"\"]}",
    );
    assert_eq!(
        step.sends[1],
        "{\"m\":\"switch_timezone\",\"p\":[\"cs_000000000001\",\"exchange\"]}",
    );
    expect_wait(&step, MessageKind::SeriesLoading, 2000);

    let step = client.step(matched(ParsedTradingViewMessage::SeriesLoading(
        SeriesLoadingMessage {},
    )));
    assert!(step.sends.is_empty());
    expect_wait(&step, MessageKind::TimescaleUpdate, 2000);

    let step = client.step(matched(timescale()));
    assert!(step.sends.is_empty());
    expect_wait(&step, MessageKind::SeriesCompleted, 2000);

    let step = client.step(matched(ParsedTradingViewMessage::SeriesCompleted(
        SeriesCompletedMessage {},
    )));
    assert_eq!(step.sends.len(), 1);
    assert_eq!(
        step.sends[0],
        "{\"m\":\"create_study\",\"p\":[\"cs_000000000001\",\"st1\",\"sessions_1\",\"sds_1\",\"Sessions@tv-basicstudies-241\",{}]}",
    );
    expect_wait(&step, MessageKind::StudyLoading, 10000);

    let step = client.step(matched(ParsedTradingViewMessage::StudyLoading(
        StudyLoadingMessage {},
    )));
    expect_wait(&step, MessageKind::StudyCompleted, 3000);

    let step = client.step(matched(ParsedTradingViewMessage::StudyCompleted(
        StudyCompletedMessage {},
    )));
    assert_eq!(step.sends.len(), 1);
    assert_eq!(
        step.sends[0],
        "{\"m\":\"create_study\",\"p\":[\"cs_000000000001\",\"st2\",\"st1\",\"sds_1\",\"Script@tv-scripting-101!\",{\"text\":\"indicator-script\"}]}",
    );
    expect_wait(&step, MessageKind::StudyLoading, 3000);

    let step = client.step(matched(ParsedTradingViewMessage::StudyLoading(
        StudyLoadingMessage {},
    )));
    expect_wait(&step, MessageKind::StudyCompleted, 3000);

    let step = client.step(matched(ParsedTradingViewMessage::StudyCompleted(
        StudyCompletedMessage {},
    )));
    assert_eq!(
        step.next,
        SessionAction::Wait(MessagePredicate::StudyDataUpdateNonEmpty, 3000),
    );

    let step = client.step(matched(study_data_update()));
    assert_eq!(step.sends.len(), 4);
    assert_eq!(
        step.sends[0],
        "{\"m\":\"quote_create_session\",\"p\":[\"qs_000000000001\",\"\"]}",
    );
    assert!(step.sends[1].starts_with("{\"m\":\"quote_set_fields\",\"p\":[\"qs_000000000001\","));
    assert_eq!(
        step.sends[2],
        "{\"m\":\"quote_add_symbols\",\"p\":[\"qs_000000000001\",\"QUOTE:SYM\"]}",
    );
    assert_eq!(
        step.sends[3],
        "{\"m\":\"quote_fast_symbols\",\"p\":[\"qs_000000000001\",\"QUOTE:SYM\"]}",
    );
    expect_wait(&step, MessageKind::QuoteCompleted, 2000);

    let step = client.step(matched(quote_completed()));
    assert_eq!(
        step.next,
        SessionAction::Wait(MessagePredicate::QuoteLastPrice, 2000),
    );

    let step = client.step(matched(quote_last_price()));
    assert!(step.sends.is_empty());
    assert_eq!(step.next, SessionAction::FinishSnapshot);

    let result = client.into_result();
    assert_eq!(result.server_hello_messages.len(), 1);
    assert_eq!(result.symbol_resolved_messages.len(), 1);
    assert_eq!(result.series_loading_messages.len(), 1);
    assert_eq!(result.timescale_update_messages.len(), 1);
    assert_eq!(result.series_completed_messages.len(), 1);
    assert_eq!(result.study_loading_messages.len(), 2);
    assert_eq!(result.study_completed_messages.len(), 2);
    assert_eq!(result.study_data_update_messages.len(), 1);
    assert_eq!(result.quote_completed_messages.len(), 1);
    assert_eq!(result.quote_last_price_messages.len(), 1);
    assert_eq!(result.quote_completed_messages[0].symbol, "QUOTE:SYM");
}

#[test]
fn chart_sessions_are_indexed_per_symbol() {
    // Two chart symbols, no indicators, no quotes: the second chart
    // session takes the next id, and each per-chart list ends with one
    // record per symbol.
    let mut client = TradingViewClient::new(TradingViewClientConfig {
        name: "client".to_string(),
        auth_token: "t".to_string(),
        chart_symbols: vec!["SYM:ONE".to_string(), "SYM:TWO".to_string()],
        quote_symbols: vec![],
        indicators: vec![],
        timeframe: Some("5".to_string()),
        range: Some(10),
        mode: TradingViewClientMode::Standard,
    });
    client.step(SessionEvent::Started);
    let step = client.step(matched(hello()));
    assert_eq!(
        step.sends[2],
        "{\"m\":\"chart_create_session\",\"p\":[\"cs_000000000001\",\"\"]}",
    );
    for _ in 0..2 {
        client.step(matched(ParsedTradingViewMessage::SymbolResolved(SymbolResolvedMessage {})));
        client.step(matched(ParsedTradingViewMessage::SeriesLoading(SeriesLoadingMessage {})));
        client.step(matched(timescale()));
        let step = client.step(matched(ParsedTradingViewMessage::SeriesCompleted(
            SeriesCompletedMessage {},
        )));
        if step.sends.len() == 2 {
            // The run moved on to the second chart symbol.
            assert_eq!(
                step.sends[0],
                "{\"m\":\"chart_create_session\",\"p\":[\"cs_000000000002\",\"\"]}",
            );
            assert_eq!(
                step.sends[1],
                "{\"m\":\"resolve_symbol\",\"p\":[\"cs_000000000002\",\"sds_sym_1\", \"SYM:TWO\"]}",
            );
        } else {
            assert_eq!(step.next, SessionAction::FinishSnapshot);
        }
    }
    let result = client.into_result();
    assert_eq!(result.server_hello_messages.len(), 1);
    assert_eq!(result.symbol_resolved_messages.len(), 2);
    assert_eq!(result.series_loading_messages.len(), 2);
    assert_eq!(result.timescale_update_messages.len(), 2);
    assert_eq!(result.series_completed_messages.len(), 2);
}

#[test]
fn bounded_run_without_symbols_finishes_at_once() {
    let mut client = TradingViewClient::new(TradingViewClientConfig {
        name: "client".to_string(),
        auth_token: "t".to_string(),
        chart_symbols: vec![],
        quote_symbols: vec![],
        indicators: vec![],
        timeframe: None,
        range: None,
        mode: TradingViewClientMode::Standard,
    });
    let step = client.step(SessionEvent::Started);
    expect_wait(&step, MessageKind::ServerHello, 5000);
    let step = client.step(matched(hello()));
    // Authentication still happens; then there is nothing to wait on.
    assert_eq!(step.sends.len(), 2);
    assert_eq!(step.next, SessionAction::FinishSnapshot);
    let result = client.into_result();
    assert_eq!(result.server_hello_messages.len(), 1);
    assert_eq!(result.symbol_resolved_messages.len(), 0);
    assert_eq!(result.quote_completed_messages.len(), 0);
}

#[test]
fn streaming_run_enters_the_dispatch_loop() {
    let mut client = TradingViewClient::new(TradingViewClientConfig {
        name: "client".to_string(),
        auth_token: "t".to_string(),
        chart_symbols: vec![],
        quote_symbols: vec![],
        indicators: vec![],
        timeframe: None,
        range: None,
        mode: TradingViewClientMode::Streaming,
    });
    client.step(SessionEvent::Started);
    let step = client.step(matched(hello()));
    assert_eq!(step.next, SessionAction::EnterStreaming);
}

#[test]
fn timeout_fails_the_run() {
    let mut client = TradingViewClient::new(config(TradingViewClientMode::Standard));
    client.step(SessionEvent::Started);
    let step = client.step(SessionEvent::TimedOut);
    assert_eq!(step.next, SessionAction::Fail(SessionError::TimedOut));
}

#[test]
fn wrong_variant_is_a_type_mismatch_not_a_timeout() {
    let mut client = TradingViewClient::new(config(TradingViewClientMode::Standard));
    client.step(SessionEvent::Started);
    let step = client.step(matched(ParsedTradingViewMessage::SeriesLoading(
        SeriesLoadingMessage {},
    )));
    assert_eq!(step.next, SessionAction::Fail(SessionError::TypeMismatch));
}

#[test]
fn missing_timeframe_with_chart_symbols_is_an_invalid_config() {
    let mut client = TradingViewClient::new(TradingViewClientConfig {
        name: "client".to_string(),
        auth_token: "t".to_string(),
        chart_symbols: vec!["CHART:SYM".to_string()],
        quote_symbols: vec![],
        indicators: vec![],
        timeframe: None,
        range: None,
        mode: TradingViewClientMode::Standard,
    });
    client.step(SessionEvent::Started);
    client.step(matched(hello()));
    let step = client.step(matched(ParsedTradingViewMessage::SymbolResolved(
        SymbolResolvedMessage {},
    )));
    assert_eq!(step.next, SessionAction::Fail(SessionError::InvalidConfig));
}

#[test]
fn heartbeat_round_trip_in_streaming_mode() {
    // A buffered heartbeat is answered with exactly the reply text for
    // its nonce and is not forwarded to the processor.
    match streaming_step(ParsedTradingViewMessage::Ping(42)) {
        StreamAction::SendPong(text) => assert_eq!(text, "~h~42"),
        StreamAction::Process(_) => panic!("a heartbeat must not reach the processor"),
    }
}

#[test]
fn non_heartbeats_are_forwarded_unchanged() {
    let m = ParsedTradingViewMessage::DataUpdate(DataUpdateMessage {
        chart_session_id: "cs_1".to_string(),
        update_key: "sds_1".to_string(),
        series_updates: None,
        study_updates: None,
    });
    match streaming_step(m.clone()) {
        StreamAction::Process(out) => assert_eq!(out, m),
        StreamAction::SendPong(_) => panic!("only heartbeats are answered"),
    }
}
