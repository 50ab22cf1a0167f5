use tradingview_client::MessageBuffer;
use tradingview_client::MessageKind;
use tradingview_client::MessagePredicate;
use tradingview_client::ParsedTradingViewMessage;
use tradingview_client::QuoteCompletedMessage;
use tradingview_client::SeriesLoadingMessage;
use tradingview_client::TradingViewMessageWrapper;
use tradingview_client::WaitPoll;
use tradingview_client::wait_poll_step;

fn wrapper(payload: &str) -> TradingViewMessageWrapper {
    TradingViewMessageWrapper {
        payload: payload.to_string(),
        parsed_message: ParsedTradingViewMessage::from_string(payload).unwrap(),
    }
}

#[test]
fn selective_removal_keeps_the_rest_in_order() {
    // Three messages; only the second matches.  The second comes out,
    // the first and third stay in their original relative order.
    let mut buffer = MessageBuffer::new();
    buffer.push(wrapper("{\"m\":\"series_loading\",\"p\":[\"first\"]}"));
    buffer.push(wrapper("{\"m\":\"quote_completed\",\"p\":[\"qs_1\",\"SYM\"]}"));
    buffer.push(wrapper("{\"m\":\"series_loading\",\"p\":[\"third\"]}"));

    let taken = buffer
        .try_take(&MessagePredicate::Kind(MessageKind::QuoteCompleted))
        .unwrap();
    assert!(matches!(
        taken.parsed_message,
        ParsedTradingViewMessage::QuoteCompleted(QuoteCompletedMessage { .. }),
    ));
    assert_eq!(buffer.len(), 2);

    let first = buffer.try_take(&MessagePredicate::Any).unwrap();
    assert_eq!(first.payload, "{\"m\":\"series_loading\",\"p\":[\"first\"]}");
    let third = buffer.try_take(&MessagePredicate::Any).unwrap();
    assert_eq!(third.payload, "{\"m\":\"series_loading\",\"p\":[\"third\"]}");
    assert_eq!(buffer.len(), 0);
}

#[test]
fn try_take_without_match_leaves_the_buffer_alone() {
    let mut buffer = MessageBuffer::new();
    buffer.push(wrapper("~h~1"));
    assert!(buffer.try_take(&MessagePredicate::Kind(MessageKind::ServerHello)).is_none());
    assert_eq!(buffer.len(), 1);
}

#[test]
fn predicate_study_data_update_non_empty() {
    let p = MessagePredicate::StudyDataUpdateNonEmpty;
    let with_rows = wrapper(
        "{\"m\":\"du\",\"p\":[\"cs_1\",{\"st2\":{\"st\":[{\"i\":3,\"v\":[1.0]}]}}]}",
    );
    let without_rows = wrapper("{\"m\":\"du\",\"p\":[\"cs_1\",{\"sds_1\":{\"ns\":{}}}]}");
    assert!(p.matches(&with_rows.parsed_message));
    assert!(!p.matches(&without_rows.parsed_message));
}

#[test]
fn predicate_quote_last_price() {
    let p = MessagePredicate::QuoteLastPrice;
    let with_lp = wrapper("{\"m\":\"qsd\",\"p\":[\"qs_1\",{\"n\":\"X\",\"v\":{\"lp\":1.5}}]}");
    let without = wrapper("{\"m\":\"qsd\",\"p\":[\"qs_1\",{\"n\":\"X\",\"v\":{\"ch\":1.5}}]}");
    assert!(p.matches(&with_lp.parsed_message));
    assert!(!p.matches(&without.parsed_message));
}

#[test]
fn wait_poll_finds_a_match_and_removes_it() {
    let mut buffer = MessageBuffer::new();
    buffer.push(wrapper("~h~7"));
    let mut elapsed: u64 = 0;
    let r = wait_poll_step(&mut buffer, &MessagePredicate::Any, &mut elapsed, 100, 1);
    match r {
        WaitPoll::Found(w) => assert_eq!(w.payload, "~h~7"),
        other => panic!("expected a match, got {:?}", other),
    }
    assert_eq!(buffer.len(), 0);
    assert_eq!(elapsed, 0);
}

#[test]
fn wait_times_out_within_one_backoff_of_the_deadline() {
    // A predicate that never matches: the wait must report the timeout
    // no earlier than the deadline and strictly before deadline plus
    // one backoff increment.
    let mut buffer = MessageBuffer::new();
    buffer.push(wrapper("~h~1"));
    let timeout: u64 = 10;
    let backoff: u64 = 3;
    let mut elapsed: u64 = 0;
    let mut polls: u32 = 0;
    loop {
        polls += 1;
        assert!(polls < 100, "wait never timed out");
        match wait_poll_step(
            &mut buffer,
            &MessagePredicate::Kind(MessageKind::ServerHello),
            &mut elapsed,
            timeout,
            backoff,
        ) {
            WaitPoll::Found(_) => panic!("nothing should match"),
            WaitPoll::Sleep => continue,
            WaitPoll::TimedOut => break,
        }
    }
    assert!(elapsed >= timeout);
    assert!(elapsed < timeout + backoff);
    assert_eq!(elapsed, 12);
    // The unmatched message is still buffered.
    assert_eq!(buffer.len(), 1);
}

#[test]
fn zero_timeout_times_out_immediately() {
    let mut buffer = MessageBuffer::new();
    let mut elapsed: u64 = 0;
    let r = wait_poll_step(&mut buffer, &MessagePredicate::Any, &mut elapsed, 0, 5);
    assert!(matches!(r, WaitPoll::TimedOut));
    assert_eq!(elapsed, 0);
}

#[test]
fn series_loading_message_parses_with_any_parameters() {
    let w = wrapper("{\"m\":\"series_loading\",\"p\":[\"cs_1\",\"sds_1\"]}");
    assert!(matches!(
        w.parsed_message,
        ParsedTradingViewMessage::SeriesLoading(SeriesLoadingMessage {}),
    ));
}
