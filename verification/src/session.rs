//! The session state machine.
//!
//! The machine sequences outbound protocol commands against typed
//! inbound waits.  It is driven by events: the caller performs each
//! returned action (send the texts, wait on the buffer with the given
//! predicate and timeout) and feeds back what happened.  In bounded
//! mode the machine ends by handing over the accumulated snapshot; in
//! streaming mode it ends by entering the unbounded dispatch loop.

use vstd::prelude::*;

use crate::buffer::MessagePredicate;
use crate::commands::chart_create_session_cmd;
use crate::commands::chart_session_id;
use crate::commands::chart_session_id_spec;
use crate::commands::create_series_cmd;
use crate::commands::create_study_cmd;
use crate::commands::pong_cmd;
use crate::commands::quote_add_symbols_cmd;
use crate::commands::quote_create_session_cmd;
use crate::commands::quote_fast_symbols_cmd;
use crate::commands::quote_session_id;
use crate::commands::quote_session_id_spec;
use crate::commands::quote_set_fields_cmd;
use crate::commands::resolve_symbol_cmd;
use crate::commands::set_auth_token_cmd;
use crate::commands::set_locale_cmd;
use crate::commands::study_id_spec;
use crate::commands::switch_timezone_cmd;
use crate::messages::DataUpdateMessage;
use crate::messages::DataUpdateV;
use crate::messages::QuoteCompletedMessage;
use crate::messages::QuoteCompletedV;
use crate::messages::QuoteSeriesDataMessage;
use crate::messages::QuoteSeriesDataV;
use crate::messages::SeriesCompletedMessage;
use crate::messages::SeriesLoadingMessage;
use crate::messages::ServerHelloMessage;
use crate::messages::StudyCompletedMessage;
use crate::messages::StudyLoadingMessage;
use crate::messages::SymbolResolvedMessage;
use crate::messages::TimescaleUpdatedMessage;
use crate::messages::TimescaleUpdatedV;
use crate::parsed_message::MessageKind;
use crate::parsed_message::ParsedMessageV;
use crate::parsed_message::ParsedTradingViewMessage;

verus! {

/// Whether a run returns one bounded snapshot or streams updates to a
/// processor without end.
#[derive(Debug, Clone, Copy, PartialEq, Eq, Structural)]
pub enum TradingViewClientMode {
    Standard,
    Streaming,
}

/// One client run's immutable configuration.
#[derive(Debug, Clone)]
pub struct TradingViewClientConfig {
    pub name: String,
    pub auth_token: String,
    pub chart_symbols: Vec<String>,
    pub quote_symbols: Vec<String>,
    pub indicators: Vec<String>,
    pub timeframe: Option<String>,
    pub range: Option<u64>,
    pub mode: TradingViewClientMode,
}

/// The views of a list of strings.
pub open spec fn strings_view(v: Seq<String>) -> Seq<Seq<char>> {
    Seq::new(v.len(), |i: int| v[i]@)
}

/// The view of a [`TradingViewClientConfig`].
pub struct ConfigV {
    pub name: Seq<char>,
    pub auth_token: Seq<char>,
    pub chart_symbols: Seq<Seq<char>>,
    pub quote_symbols: Seq<Seq<char>>,
    pub indicators: Seq<Seq<char>>,
    pub timeframe: Option<Seq<char>>,
    pub range: Option<u64>,
    pub mode: TradingViewClientMode,
}

impl View for TradingViewClientConfig {
    type V = ConfigV;

    open spec fn view(&self) -> ConfigV {
        ConfigV {
            name: self.name@,
            auth_token: self.auth_token@,
            chart_symbols: strings_view(self.chart_symbols@),
            quote_symbols: strings_view(self.quote_symbols@),
            indicators: strings_view(self.indicators@),
            timeframe: match self.timeframe {
                Some(ref t) => Some(t@),
                None => None,
            },
            range: self.range,
            mode: self.mode,
        }
    }
}

/// The views of a list of viewable records.
pub open spec fn records_view<T: View>(v: Seq<T>) -> Seq<T::V> {
    Seq::new(v.len(), |i: int| v[i]@)
}

/// Every typed message observed during session establishment, grouped
/// by kind, each list in arrival order.
#[derive(Debug)]
pub struct TradingViewScrapeResult {
    pub server_hello_messages: Vec<ServerHelloMessage>,
    pub symbol_resolved_messages: Vec<SymbolResolvedMessage>,
    pub series_loading_messages: Vec<SeriesLoadingMessage>,
    pub timescale_update_messages: Vec<TimescaleUpdatedMessage>,
    pub series_completed_messages: Vec<SeriesCompletedMessage>,
    pub study_loading_messages: Vec<StudyLoadingMessage>,
    pub study_completed_messages: Vec<StudyCompletedMessage>,
    pub quote_completed_messages: Vec<QuoteCompletedMessage>,
    pub quote_last_price_messages: Vec<QuoteSeriesDataMessage>,
    pub series_data_update_messages: Vec<DataUpdateMessage>,
    pub study_data_update_messages: Vec<DataUpdateMessage>,
}

/// The view of a [`TradingViewScrapeResult`].
pub struct ScrapeResultV {
    pub server_hello_messages: Seq<ServerHelloMessage>,
    pub symbol_resolved_messages: Seq<SymbolResolvedMessage>,
    pub series_loading_messages: Seq<SeriesLoadingMessage>,
    pub timescale_update_messages: Seq<TimescaleUpdatedV>,
    pub series_completed_messages: Seq<SeriesCompletedMessage>,
    pub study_loading_messages: Seq<StudyLoadingMessage>,
    pub study_completed_messages: Seq<StudyCompletedMessage>,
    pub quote_completed_messages: Seq<QuoteCompletedV>,
    pub quote_last_price_messages: Seq<QuoteSeriesDataV>,
    pub series_data_update_messages: Seq<DataUpdateV>,
    pub study_data_update_messages: Seq<DataUpdateV>,
}

impl View for TradingViewScrapeResult {
    type V = ScrapeResultV;

    open spec fn view(&self) -> ScrapeResultV {
        ScrapeResultV {
            server_hello_messages: self.server_hello_messages@,
            symbol_resolved_messages: self.symbol_resolved_messages@,
            series_loading_messages: self.series_loading_messages@,
            timescale_update_messages: records_view(self.timescale_update_messages@),
            series_completed_messages: self.series_completed_messages@,
            study_loading_messages: self.study_loading_messages@,
            study_completed_messages: self.study_completed_messages@,
            quote_completed_messages: records_view(self.quote_completed_messages@),
            quote_last_price_messages: records_view(self.quote_last_price_messages@),
            series_data_update_messages: records_view(self.series_data_update_messages@),
            study_data_update_messages: records_view(self.study_data_update_messages@),
        }
    }
}

/// The empty scrape result.
pub open spec fn empty_scrape_result() -> ScrapeResultV {
    ScrapeResultV {
        server_hello_messages: Seq::empty(),
        symbol_resolved_messages: Seq::empty(),
        series_loading_messages: Seq::empty(),
        timescale_update_messages: Seq::empty(),
        series_completed_messages: Seq::empty(),
        study_loading_messages: Seq::empty(),
        study_completed_messages: Seq::empty(),
        quote_completed_messages: Seq::empty(),
        quote_last_price_messages: Seq::empty(),
        series_data_update_messages: Seq::empty(),
        study_data_update_messages: Seq::empty(),
    }
}

impl TradingViewScrapeResult {
    /// A result with nothing recorded yet.
    pub fn new() -> (r: Self)
        ensures
            r@ == empty_scrape_result(),
    {
        let r = TradingViewScrapeResult {
            server_hello_messages: Vec::new(),
            symbol_resolved_messages: Vec::new(),
            series_loading_messages: Vec::new(),
            timescale_update_messages: Vec::new(),
            series_completed_messages: Vec::new(),
            study_loading_messages: Vec::new(),
            study_completed_messages: Vec::new(),
            quote_completed_messages: Vec::new(),
            quote_last_price_messages: Vec::new(),
            series_data_update_messages: Vec::new(),
            study_data_update_messages: Vec::new(),
        };
        proof {
            assert(r@.server_hello_messages =~= Seq::<ServerHelloMessage>::empty());
            assert(r@.symbol_resolved_messages =~= Seq::<SymbolResolvedMessage>::empty());
            assert(r@.series_loading_messages =~= Seq::<SeriesLoadingMessage>::empty());
            assert(r@.timescale_update_messages =~= Seq::<TimescaleUpdatedV>::empty());
            assert(r@.series_completed_messages =~= Seq::<SeriesCompletedMessage>::empty());
            assert(r@.study_loading_messages =~= Seq::<StudyLoadingMessage>::empty());
            assert(r@.study_completed_messages =~= Seq::<StudyCompletedMessage>::empty());
            assert(r@.quote_completed_messages =~= Seq::<QuoteCompletedV>::empty());
            assert(r@.quote_last_price_messages =~= Seq::<QuoteSeriesDataV>::empty());
            assert(r@.series_data_update_messages =~= Seq::<DataUpdateV>::empty());
            assert(r@.study_data_update_messages =~= Seq::<DataUpdateV>::empty());
        }
        r
    }
}

/// Where the machine stands: which inbound message it is blocked on,
/// or how it ended.
#[derive(Debug, Clone, Copy, PartialEq, Eq, Structural)]
pub enum SessionPhase {
    /// Not started.
    Idle,
    AwaitHello,
    AwaitSymbolResolved,
    AwaitSeriesLoading,
    AwaitTimescaleUpdate,
    AwaitSeriesCompleted,
    AwaitBaselineStudyLoading,
    AwaitBaselineStudyCompleted,
    AwaitStudyLoading,
    AwaitStudyCompleted,
    AwaitStudyDataUpdate,
    AwaitQuoteCompleted,
    AwaitQuoteLastPrice,
    /// Establishment done; every further message goes to a processor.
    Streaming,
    /// Establishment done; the snapshot is ready.
    Done,
    /// A step failed; the run is over.
    Failed,
}

/// What the driver reports back to the machine.
#[derive(Debug)]
pub enum SessionEvent {
    /// The run begins.
    Started,
    /// The pending wait matched this message.
    Matched(ParsedTradingViewMessage),
    /// The pending wait timed out.
    TimedOut,
}

/// The view of a [`SessionEvent`].
pub enum SessionEventV {
    Started,
    Matched(ParsedMessageV),
    TimedOut,
}

impl View for SessionEvent {
    type V = SessionEventV;

    open spec fn view(&self) -> SessionEventV {
        match self {
            SessionEvent::Started => SessionEventV::Started,
            SessionEvent::Matched(m) => SessionEventV::Matched(m@),
            SessionEvent::TimedOut => SessionEventV::TimedOut,
        }
    }
}

/// Why a run failed.  A timeout is always distinguishable from a
/// matched message of the wrong variant.
#[derive(Debug, Clone, Copy, PartialEq, Eq, Structural)]
pub enum SessionError {
    /// A wait step's deadline elapsed with no matching message.
    TimedOut,
    /// The pending wait matched a message of the wrong variant.
    TypeMismatch,
    /// An event arrived that the machine was not expecting.
    NotReady,
    /// The configuration lacks a field this step needs.
    InvalidConfig,
}

/// What the driver must do next.
#[derive(Debug, Clone, PartialEq)]
pub enum SessionAction {
    /// Wait on the buffer for a message matching the predicate, up to
    /// the timeout in milliseconds.
    Wait(MessagePredicate, u64),
    /// Send the close frame and take the snapshot.
    FinishSnapshot,
    /// Enter the unbounded streaming dispatch loop.
    EnterStreaming,
    /// Surface this error; the run is over.
    Fail(SessionError),
}

/// One step's outcome: texts to send, in order, then the next action.
#[derive(Debug)]
pub struct SessionStep {
    pub sends: Vec<String>,
    pub next: SessionAction,
}

/// The view of a [`SessionStep`].
pub struct SessionStepV {
    pub sends: Seq<Seq<char>>,
    pub next: SessionAction,
}

impl View for SessionStep {
    type V = SessionStepV;

    open spec fn view(&self) -> SessionStepV {
        SessionStepV { sends: strings_view(self.sends@), next: self.next }
    }
}

/// The session state machine.
#[derive(Debug)]
pub struct TradingViewClient {
    config: TradingViewClientConfig,
    phase: SessionPhase,
    chart_index: usize,
    indicator_index: usize,
    quote_index: usize,
    result: TradingViewScrapeResult,
}

/// The view of a [`TradingViewClient`].
pub struct ClientV {
    pub config: ConfigV,
    pub phase: SessionPhase,
    pub chart_index: int,
    pub indicator_index: int,
    pub quote_index: int,
    pub result: ScrapeResultV,
}

impl View for TradingViewClient {
    type V = ClientV;

    closed spec fn view(&self) -> ClientV {
        ClientV {
            config: self.config@,
            phase: self.phase,
            chart_index: self.chart_index as int,
            indicator_index: self.indicator_index as int,
            quote_index: self.quote_index as int,
            result: self.result@,
        }
    }
}

/// The machine a fresh client starts with.
pub open spec fn initial_client(config: ConfigV) -> ClientV {
    ClientV {
        config,
        phase: SessionPhase::Idle,
        chart_index: 0,
        indicator_index: 0,
        quote_index: 0,
        result: empty_scrape_result(),
    }
}

/// A failing step: the machine is finished and the error surfaces.
pub open spec fn sp_fail(c: ClientV, err: SessionError) -> (ClientV, SessionStepV) {
    (
        ClientV { phase: SessionPhase::Failed, ..c },
        SessionStepV { sends: Seq::empty(), next: SessionAction::Fail(err) },
    )
}

/// The finish fork: bounded mode hands over the snapshot, streaming
/// mode enters the dispatch loop.
pub open spec fn sp_finish(c: ClientV) -> (ClientV, SessionStepV) {
    match c.config.mode {
        TradingViewClientMode::Standard => (
            ClientV { phase: SessionPhase::Done, ..c },
            SessionStepV { sends: Seq::empty(), next: SessionAction::FinishSnapshot },
        ),
        TradingViewClientMode::Streaming => (
            ClientV { phase: SessionPhase::Streaming, ..c },
            SessionStepV { sends: Seq::empty(), next: SessionAction::EnterStreaming },
        ),
    }
}

/// Starting quote symbol `k`: create the quote session, subscribe the
/// field list, add the symbol, enable fast mode, then block on the
/// quote-completed reply.
pub open spec fn sp_start_quote(c: ClientV, k: int) -> (ClientV, SessionStepV) {
    let qs = quote_session_id_spec((k + 1) as nat);
    (
        ClientV { phase: SessionPhase::AwaitQuoteCompleted, quote_index: k, ..c },
        SessionStepV {
            sends: seq![
                quote_create_session_cmd(qs),
                quote_set_fields_cmd(qs),
                quote_add_symbols_cmd(qs, c.config.quote_symbols[k]),
                quote_fast_symbols_cmd(qs, c.config.quote_symbols[k]),
            ],
            next: SessionAction::Wait(MessagePredicate::Kind(MessageKind::QuoteCompleted), 2000),
        },
    )
}

/// After the chart work: move to the quote symbols, or finish when
/// there are none.
pub open spec fn sp_after_charts(c: ClientV) -> (ClientV, SessionStepV) {
    if c.config.quote_symbols.len() > 0 {
        sp_start_quote(c, 0)
    } else {
        sp_finish(c)
    }
}

/// Starting chart symbol `i`: create the chart session and ask for
/// symbol resolution, then block on the resolved reply.
pub open spec fn sp_start_chart(c: ClientV, i: int) -> (ClientV, SessionStepV) {
    let cs = chart_session_id_spec((i + 1) as nat);
    (
        ClientV { phase: SessionPhase::AwaitSymbolResolved, chart_index: i, ..c },
        SessionStepV {
            sends: seq![
                chart_create_session_cmd(cs),
                resolve_symbol_cmd(cs, "sds_sym_1"@, c.config.chart_symbols[i]),
            ],
            next: SessionAction::Wait(MessagePredicate::Kind(MessageKind::SymbolResolved), 2000),
        },
    )
}

/// Moving on to chart symbol `i`, or past the charts when they are
/// exhausted.
pub open spec fn sp_advance_chart(c: ClientV, i: int) -> (ClientV, SessionStepV) {
    if i < c.config.chart_symbols.len() {
        sp_start_chart(c, i)
    } else {
        sp_after_charts(ClientV { chart_index: c.config.chart_symbols.len() as int, ..c })
    }
}

/// Starting indicator `j` of the current chart: create its study under
/// the scripting slot, then block on the study-loading reply.
pub open spec fn sp_start_indicator(c: ClientV, j: int) -> (ClientV, SessionStepV) {
    if j >= u64::MAX - 1 {
        sp_fail(c, SessionError::InvalidConfig)
    } else {
        let cs = chart_session_id_spec((c.chart_index + 1) as nat);
        (
            ClientV { phase: SessionPhase::AwaitStudyLoading, indicator_index: j, ..c },
            SessionStepV {
                sends: seq![
                    create_study_cmd(
                        cs,
                        study_id_spec(j as nat),
                        "st1"@,
                        "sds_1"@,
                        "Script@tv-scripting-101!"@,
                        c.config.indicators[j],
                    ),
                ],
                next: SessionAction::Wait(MessagePredicate::Kind(MessageKind::StudyLoading), 3000),
            },
        )
    }
}

/// The transition function of the session state machine.
pub open spec fn spec_step(c: ClientV, e: SessionEventV) -> (ClientV, SessionStepV) {
    match (c.phase, e) {
        (SessionPhase::Idle, SessionEventV::Started) => (
            ClientV { phase: SessionPhase::AwaitHello, ..c },
            SessionStepV {
                sends: Seq::empty(),
                next: SessionAction::Wait(MessagePredicate::Kind(MessageKind::ServerHello), 5000),
            },
        ),
        (SessionPhase::Idle, _) => sp_fail(c, SessionError::NotReady),
        (SessionPhase::AwaitHello, SessionEventV::Matched(m)) => match m {
            ParsedMessageV::ServerHello(h) => {
                let c1 = ClientV {
                    result: ScrapeResultV {
                        server_hello_messages: c.result.server_hello_messages.push(h),
                        ..c.result
                    },
                    ..c
                };
                let (c2, step) = sp_advance_chart(c1, 0);
                (
                    c2,
                    SessionStepV {
                        sends: seq![
                            set_auth_token_cmd(c.config.auth_token),
                            set_locale_cmd("en"@, "US"@),
                        ] + step.sends,
                        next: step.next,
                    },
                )
            },
            _ => sp_fail(c, SessionError::TypeMismatch),
        },
        (SessionPhase::AwaitSymbolResolved, SessionEventV::Matched(m)) => match m {
            ParsedMessageV::SymbolResolved(sr) => match (c.config.timeframe, c.config.range) {
                (Some(tf), Some(rg)) => {
                    let cs = chart_session_id_spec((c.chart_index + 1) as nat);
                    (
                        ClientV {
                            phase: SessionPhase::AwaitSeriesLoading,
                            result: ScrapeResultV {
                                symbol_resolved_messages: c.result.symbol_resolved_messages.push(
                                    sr,
                                ),
                                ..c.result
                            },
                            ..c
                        },
                        SessionStepV {
                            sends: seq![
                                create_series_cmd(
                                    cs,
                                    "sds_1"@,
                                    "s1"@,
                                    "sds_sym_1"@,
                                    tf,
                                    rg as nat,
                                ),
                                switch_timezone_cmd(cs, "exchange"@),
                            ],
                            next: SessionAction::Wait(
                                MessagePredicate::Kind(MessageKind::SeriesLoading),
                                2000,
                            ),
                        },
                    )
                },
                _ => sp_fail(c, SessionError::InvalidConfig),
            },
            _ => sp_fail(c, SessionError::TypeMismatch),
        },
        (SessionPhase::AwaitSeriesLoading, SessionEventV::Matched(m)) => match m {
            ParsedMessageV::SeriesLoading(sl) => (
                ClientV {
                    phase: SessionPhase::AwaitTimescaleUpdate,
                    result: ScrapeResultV {
                        series_loading_messages: c.result.series_loading_messages.push(sl),
                        ..c.result
                    },
                    ..c
                },
                SessionStepV {
                    sends: Seq::empty(),
                    next: SessionAction::Wait(
                        MessagePredicate::Kind(MessageKind::TimescaleUpdate),
                        2000,
                    ),
                },
            ),
            _ => sp_fail(c, SessionError::TypeMismatch),
        },
        (SessionPhase::AwaitTimescaleUpdate, SessionEventV::Matched(m)) => match m {
            ParsedMessageV::TimescaleUpdate(t) => (
                ClientV {
                    phase: SessionPhase::AwaitSeriesCompleted,
                    result: ScrapeResultV {
                        timescale_update_messages: c.result.timescale_update_messages.push(t),
                        ..c.result
                    },
                    ..c
                },
                SessionStepV {
                    sends: Seq::empty(),
                    next: SessionAction::Wait(
                        MessagePredicate::Kind(MessageKind::SeriesCompleted),
                        2000,
                    ),
                },
            ),
            _ => sp_fail(c, SessionError::TypeMismatch),
        },
        (SessionPhase::AwaitSeriesCompleted, SessionEventV::Matched(m)) => match m {
            ParsedMessageV::SeriesCompleted(sc) => {
                let c1 = ClientV {
                    result: ScrapeResultV {
                        series_completed_messages: c.result.series_completed_messages.push(sc),
                        ..c.result
                    },
                    ..c
                };
                if c.config.indicators.len() > 0 {
                    let cs = chart_session_id_spec((c.chart_index + 1) as nat);
                    (
                        ClientV { phase: SessionPhase::AwaitBaselineStudyLoading, ..c1 },
                        SessionStepV {
                            sends: seq![
                                create_study_cmd(
                                    cs,
                                    "st1"@,
                                    "sessions_1"@,
                                    "sds_1"@,
                                    "Sessions@tv-basicstudies-241"@,
                                    "{}"@,
                                ),
                            ],
                            next: SessionAction::Wait(
                                MessagePredicate::Kind(MessageKind::StudyLoading),
                                10000,
                            ),
                        },
                    )
                } else {
                    sp_advance_chart(c1, c.chart_index + 1)
                }
            },
            _ => sp_fail(c, SessionError::TypeMismatch),
        },
        (SessionPhase::AwaitBaselineStudyLoading, SessionEventV::Matched(m)) => match m {
            ParsedMessageV::StudyLoading(sl) => (
                ClientV {
                    phase: SessionPhase::AwaitBaselineStudyCompleted,
                    result: ScrapeResultV {
                        study_loading_messages: c.result.study_loading_messages.push(sl),
                        ..c.result
                    },
                    ..c
                },
                SessionStepV {
                    sends: Seq::empty(),
                    next: SessionAction::Wait(
                        MessagePredicate::Kind(MessageKind::StudyCompleted),
                        3000,
                    ),
                },
            ),
            _ => sp_fail(c, SessionError::TypeMismatch),
        },
        (SessionPhase::AwaitBaselineStudyCompleted, SessionEventV::Matched(m)) => match m {
            ParsedMessageV::StudyCompleted(sc) => {
                let c1 = ClientV {
                    result: ScrapeResultV {
                        study_completed_messages: c.result.study_completed_messages.push(sc),
                        ..c.result
                    },
                    ..c
                };
                sp_start_indicator(c1, 0)
            },
            _ => sp_fail(c, SessionError::TypeMismatch),
        },
        (SessionPhase::AwaitStudyLoading, SessionEventV::Matched(m)) => match m {
            ParsedMessageV::StudyLoading(sl) => (
                ClientV {
                    phase: SessionPhase::AwaitStudyCompleted,
                    result: ScrapeResultV {
                        study_loading_messages: c.result.study_loading_messages.push(sl),
                        ..c.result
                    },
                    ..c
                },
                SessionStepV {
                    sends: Seq::empty(),
                    next: SessionAction::Wait(
                        MessagePredicate::Kind(MessageKind::StudyCompleted),
                        3000,
                    ),
                },
            ),
            _ => sp_fail(c, SessionError::TypeMismatch),
        },
        (SessionPhase::AwaitStudyCompleted, SessionEventV::Matched(m)) => match m {
            ParsedMessageV::StudyCompleted(sc) => (
                ClientV {
                    phase: SessionPhase::AwaitStudyDataUpdate,
                    result: ScrapeResultV {
                        study_completed_messages: c.result.study_completed_messages.push(sc),
                        ..c.result
                    },
                    ..c
                },
                SessionStepV {
                    sends: Seq::empty(),
                    next: SessionAction::Wait(MessagePredicate::StudyDataUpdateNonEmpty, 3000),
                },
            ),
            _ => sp_fail(c, SessionError::TypeMismatch),
        },
        (SessionPhase::AwaitStudyDataUpdate, SessionEventV::Matched(m)) => match m {
            ParsedMessageV::DataUpdate(d) => {
                let c1 = ClientV {
                    result: ScrapeResultV {
                        study_data_update_messages: c.result.study_data_update_messages.push(d),
                        ..c.result
                    },
                    ..c
                };
                if c.indicator_index + 1 < c.config.indicators.len() {
                    sp_start_indicator(c1, c.indicator_index + 1)
                } else {
                    sp_advance_chart(c1, c.chart_index + 1)
                }
            },
            _ => sp_fail(c, SessionError::TypeMismatch),
        },
        (SessionPhase::AwaitQuoteCompleted, SessionEventV::Matched(m)) => match m {
            ParsedMessageV::QuoteCompleted(qc) => (
                ClientV {
                    phase: SessionPhase::AwaitQuoteLastPrice,
                    result: ScrapeResultV {
                        quote_completed_messages: c.result.quote_completed_messages.push(qc),
                        ..c.result
                    },
                    ..c
                },
                SessionStepV {
                    sends: Seq::empty(),
                    next: SessionAction::Wait(MessagePredicate::QuoteLastPrice, 2000),
                },
            ),
            _ => sp_fail(c, SessionError::TypeMismatch),
        },
        (SessionPhase::AwaitQuoteLastPrice, SessionEventV::Matched(m)) => match m {
            ParsedMessageV::QuoteSeriesData(q) => {
                let c1 = ClientV {
                    result: ScrapeResultV {
                        quote_last_price_messages: c.result.quote_last_price_messages.push(q),
                        ..c.result
                    },
                    ..c
                };
                if c.quote_index + 1 < c.config.quote_symbols.len() {
                    sp_start_quote(c1, c.quote_index + 1)
                } else {
                    sp_finish(ClientV { quote_index: c.quote_index + 1, ..c1 })
                }
            },
            _ => sp_fail(c, SessionError::TypeMismatch),
        },
        (SessionPhase::Streaming, _) => sp_fail(c, SessionError::NotReady),
        (SessionPhase::Done, _) => sp_fail(c, SessionError::NotReady),
        (SessionPhase::Failed, _) => sp_fail(c, SessionError::NotReady),
        (_, SessionEventV::TimedOut) => sp_fail(c, SessionError::TimedOut),
        (_, _) => sp_fail(c, SessionError::NotReady),
    }
}

/// The structural invariant of a live machine, and the bookkeeping
/// that the snapshot counts rest on: before the charts are done, each
/// per-chart list holds one record per finished chart plus at most one
/// for the chart in progress; after them, one per chart; the quote
/// lists likewise.
pub open spec fn client_inv(c: ClientV) -> bool {
    let csn = c.config.chart_symbols.len() as int;
    let qsn = c.config.quote_symbols.len() as int;
    let isn = c.config.indicators.len() as int;
    let r = c.result;
    let ci = c.chart_index;
    let ii = c.indicator_index;
    let qi = c.quote_index;
    &&& 0 <= ci
    &&& 0 <= ii
    &&& 0 <= qi
    &&& match c.phase {
        SessionPhase::Idle => ci == 0 && ii == 0 && qi == 0 && r == empty_scrape_result(),
        SessionPhase::AwaitHello => ci == 0 && ii == 0 && qi == 0 && r == empty_scrape_result(),
        SessionPhase::AwaitSymbolResolved => hello_done(r) && quotes_not_started(c) && ci < csn
            && chart_counts(r, ci, ci, ci, ci),
        SessionPhase::AwaitSeriesLoading => hello_done(r) && quotes_not_started(c) && ci < csn
            && chart_counts(r, ci + 1, ci, ci, ci),
        SessionPhase::AwaitTimescaleUpdate => hello_done(r) && quotes_not_started(c) && ci < csn
            && chart_counts(r, ci + 1, ci + 1, ci, ci),
        SessionPhase::AwaitSeriesCompleted => hello_done(r) && quotes_not_started(c) && ci < csn
            && chart_counts(r, ci + 1, ci + 1, ci + 1, ci),
        SessionPhase::AwaitBaselineStudyLoading => hello_done(r) && quotes_not_started(c) && ci
            < csn && chart_counts(r, ci + 1, ci + 1, ci + 1, ci + 1) && isn > 0,
        SessionPhase::AwaitBaselineStudyCompleted => hello_done(r) && quotes_not_started(c) && ci
            < csn && chart_counts(r, ci + 1, ci + 1, ci + 1, ci + 1) && isn > 0,
        SessionPhase::AwaitStudyLoading => hello_done(r) && quotes_not_started(c) && ci < csn
            && chart_counts(r, ci + 1, ci + 1, ci + 1, ci + 1) && 0 <= ii < isn,
        SessionPhase::AwaitStudyCompleted => hello_done(r) && quotes_not_started(c) && ci < csn
            && chart_counts(r, ci + 1, ci + 1, ci + 1, ci + 1) && 0 <= ii < isn,
        SessionPhase::AwaitStudyDataUpdate => hello_done(r) && quotes_not_started(c) && ci < csn
            && chart_counts(r, ci + 1, ci + 1, ci + 1, ci + 1) && 0 <= ii < isn,
        SessionPhase::AwaitQuoteCompleted => hello_done(r) && ci == csn && chart_counts(
            r,
            csn,
            csn,
            csn,
            csn,
        ) && qi < qsn && quote_counts(r, qi, qi),
        SessionPhase::AwaitQuoteLastPrice => hello_done(r) && ci == csn && chart_counts(
            r,
            csn,
            csn,
            csn,
            csn,
        ) && qi < qsn && quote_counts(r, qi + 1, qi),
        SessionPhase::Streaming => hello_done(r) && ci == csn && chart_counts(r, csn, csn, csn, csn)
            && qi == qsn && quote_counts(r, qsn, qsn),
        SessionPhase::Done => hello_done(r) && ci == csn && chart_counts(r, csn, csn, csn, csn)
            && qi == qsn && quote_counts(r, qsn, qsn),
        SessionPhase::Failed => true,
    }
}

/// Exactly one greeting has been recorded.
pub open spec fn hello_done(r: ScrapeResultV) -> bool {
    r.server_hello_messages.len() == 1
}

/// No quote work has happened yet.
pub open spec fn quotes_not_started(c: ClientV) -> bool {
    c.quote_index == 0 && c.result.quote_completed_messages.len() == 0
        && c.result.quote_last_price_messages.len() == 0
}

/// The per-chart record counts.
pub open spec fn chart_counts(r: ScrapeResultV, sr: int, sl: int, ts: int, sc: int) -> bool {
    r.symbol_resolved_messages.len() == sr && r.series_loading_messages.len() == sl
        && r.timescale_update_messages.len() == ts && r.series_completed_messages.len() == sc
}

/// The per-quote record counts.
pub open spec fn quote_counts(r: ScrapeResultV, qc: int, qlp: int) -> bool {
    r.quote_completed_messages.len() == qc && r.quote_last_price_messages.len() == qlp
}

/// Every step of the machine preserves the invariant.
pub proof fn lemma_step_preserves_inv(c: ClientV, e: SessionEventV)
    requires
        client_inv(c),
    ensures
        client_inv(spec_step(c, e).0),
{
}

/// A step only hands the snapshot over when the machine is done, and
/// then the snapshot holds exactly one greeting record, one record of
/// each per-chart kind per configured chart symbol, and one record of
/// each per-quote kind per configured quote symbol.
pub proof fn lemma_snapshot_counts(c: ClientV, e: SessionEventV)
    requires
        client_inv(c),
        spec_step(c, e).1.next == SessionAction::FinishSnapshot,
    ensures
        spec_step(c, e).0.phase == SessionPhase::Done,
        spec_step(c, e).0.result.server_hello_messages.len() == 1,
        spec_step(c, e).0.result.symbol_resolved_messages.len()
            == c.config.chart_symbols.len(),
        spec_step(c, e).0.result.series_loading_messages.len() == c.config.chart_symbols.len(),
        spec_step(c, e).0.result.timescale_update_messages.len()
            == c.config.chart_symbols.len(),
        spec_step(c, e).0.result.series_completed_messages.len()
            == c.config.chart_symbols.len(),
        spec_step(c, e).0.result.quote_completed_messages.len()
            == c.config.quote_symbols.len(),
        spec_step(c, e).0.result.quote_last_price_messages.len()
            == c.config.quote_symbols.len(),
{
    lemma_step_preserves_inv(c, e);
}

impl TradingViewClient {
    /// A machine for one run of `config`, not yet started.
    pub fn new(config: TradingViewClientConfig) -> (r: Self)
        ensures
            r@ == initial_client(config@),
            client_inv(r@),
    {
        TradingViewClient {
            config,
            phase: SessionPhase::Idle,
            chart_index: 0,
            indicator_index: 0,
            quote_index: 0,
            result: TradingViewScrapeResult::new(),
        }
    }

    /// Hands the accumulated snapshot over.
    pub fn into_result(self) -> (r: TradingViewScrapeResult)
        ensures
            r@ == self@.result,
    {
        self.result
    }

    /// The phase the machine stands in.
    pub fn phase(&self) -> (r: SessionPhase)
        ensures
            r == self@.phase,
    {
        self.phase
    }

    fn fail(&mut self, err: SessionError) -> (r: SessionStep)
        ensures
            (final(self)@, r@) == sp_fail(old(self)@, err),
    {
        self.phase = SessionPhase::Failed;
        let r = SessionStep { sends: Vec::new(), next: SessionAction::Fail(err) };
        proof {
            assert(strings_view(r.sends@) =~= Seq::<Seq<char>>::empty());
        }
        r
    }

    fn finish(&mut self) -> (r: SessionStep)
        ensures
            (final(self)@, r@) == sp_finish(old(self)@),
    {
        match self.config.mode {
            TradingViewClientMode::Standard => {
                self.phase = SessionPhase::Done;
                let r = SessionStep { sends: Vec::new(), next: SessionAction::FinishSnapshot };
                proof {
                    assert(strings_view(r.sends@) =~= Seq::<Seq<char>>::empty());
                }
                r
            },
            TradingViewClientMode::Streaming => {
                self.phase = SessionPhase::Streaming;
                let r = SessionStep { sends: Vec::new(), next: SessionAction::EnterStreaming };
                proof {
                    assert(strings_view(r.sends@) =~= Seq::<Seq<char>>::empty());
                }
                r
            },
        }
    }

    fn start_quote(&mut self, k: usize) -> (r: SessionStep)
        requires
            k < old(self)@.config.quote_symbols.len(),
        ensures
            (final(self)@, r@) == sp_start_quote(old(self)@, k as int),
    {
        let qn = self.config.quote_symbols.len();
        proof {
            assert(k < qn);
            assert((k as u64) < u64::MAX);
        }
        let qs = quote_session_id((k as u64) + 1);
        let symbol = &self.config.quote_symbols[k];
        let mut sends: Vec<String> = Vec::new();
        sends.push(crate::commands::quote_create_session(qs.as_str()));
        sends.push(crate::commands::quote_set_fields(qs.as_str()));
        sends.push(crate::commands::quote_add_symbols(qs.as_str(), symbol.as_str()));
        sends.push(crate::commands::quote_fast_symbols(qs.as_str(), symbol.as_str()));
        proof {
            assert(old(self)@.config.quote_symbols[k as int] == self.config.quote_symbols@[
                k as int
            ]@);
            assert(strings_view(sends@) =~= seq![
                quote_create_session_cmd(qs@),
                quote_set_fields_cmd(qs@),
                quote_add_symbols_cmd(qs@, old(self)@.config.quote_symbols[k as int]),
                quote_fast_symbols_cmd(qs@, old(self)@.config.quote_symbols[k as int]),
            ]);
        }
        self.phase = SessionPhase::AwaitQuoteCompleted;
        self.quote_index = k;
        SessionStep {
            sends,
            next: SessionAction::Wait(MessagePredicate::Kind(MessageKind::QuoteCompleted), 2000),
        }
    }

    fn after_charts(&mut self) -> (r: SessionStep)
        ensures
            (final(self)@, r@) == sp_after_charts(old(self)@),
    {
        if self.config.quote_symbols.len() > 0 {
            self.start_quote(0)
        } else {
            self.finish()
        }
    }

    fn start_chart(&mut self, i: usize) -> (r: SessionStep)
        requires
            i < old(self)@.config.chart_symbols.len(),
        ensures
            (final(self)@, r@) == sp_start_chart(old(self)@, i as int),
    {
        let cn = self.config.chart_symbols.len();
        proof {
            assert(i < cn);
            assert((i as u64) < u64::MAX);
        }
        let cs = chart_session_id((i as u64) + 1);
        let symbol = &self.config.chart_symbols[i];
        let mut sends: Vec<String> = Vec::new();
        sends.push(crate::commands::chart_create_session(cs.as_str()));
        sends.push(crate::commands::resolve_symbol(cs.as_str(), "sds_sym_1", symbol.as_str()));
        proof {
            assert(old(self)@.config.chart_symbols[i as int] == self.config.chart_symbols@[
                i as int
            ]@);
            assert(strings_view(sends@) =~= seq![
                chart_create_session_cmd(cs@),
                resolve_symbol_cmd(cs@, "sds_sym_1"@, old(self)@.config.chart_symbols[i as int]),
            ]);
        }
        self.phase = SessionPhase::AwaitSymbolResolved;
        self.chart_index = i;
        SessionStep {
            sends,
            next: SessionAction::Wait(MessagePredicate::Kind(MessageKind::SymbolResolved), 2000),
        }
    }

    fn advance_chart(&mut self, i: usize) -> (r: SessionStep)
        ensures
            (final(self)@, r@) == sp_advance_chart(old(self)@, i as int),
    {
        if i < self.config.chart_symbols.len() {
            self.start_chart(i)
        } else {
            self.chart_index = self.config.chart_symbols.len();
            self.after_charts()
        }
    }

    fn start_indicator(&mut self, j: usize) -> (r: SessionStep)
        requires
            j < old(self)@.config.indicators.len(),
            old(self)@.chart_index < old(self)@.config.chart_symbols.len(),
        ensures
            (final(self)@, r@) == sp_start_indicator(old(self)@, j as int),
    {
        if (j as u64) >= u64::MAX - 1 {
            return self.fail(SessionError::InvalidConfig);
        }
        let cn = self.config.chart_symbols.len();
        proof {
            assert(self.chart_index < cn);
            assert((self.chart_index as u64) < u64::MAX);
        }
        let cs = chart_session_id((self.chart_index as u64) + 1);
        let study = crate::commands::study_id(j as u64);
        let value = &self.config.indicators[j];
        let mut sends: Vec<String> = Vec::new();
        sends.push(
            crate::commands::create_study(
                cs.as_str(),
                study.as_str(),
                "st1",
                "sds_1",
                "Script@tv-scripting-101!",
                value.as_str(),
            ),
        );
        proof {
            assert(old(self)@.config.indicators[j as int] == self.config.indicators@[j as int]@);
            assert(strings_view(sends@) =~= seq![
                create_study_cmd(
                    cs@,
                    study_id_spec(j as nat),
                    "st1"@,
                    "sds_1"@,
                    "Script@tv-scripting-101!"@,
                    old(self)@.config.indicators[j as int],
                ),
            ]);
        }
        self.phase = SessionPhase::AwaitStudyLoading;
        self.indicator_index = j;
        SessionStep {
            sends,
            next: SessionAction::Wait(MessagePredicate::Kind(MessageKind::StudyLoading), 3000),
        }
    }

    /// Feeds one event to the machine.  The returned step names the
    /// texts to send, in order, and the action to drive next; the
    /// machine follows [`spec_step`] exactly and keeps its invariant.
    fn handle_hello(&mut self, m: ParsedTradingViewMessage) -> (r: SessionStep)
        requires
            old(self)@.phase == SessionPhase::AwaitHello,
            client_inv(old(self)@),
        ensures
            (final(self)@, r@) == spec_step(old(self)@, SessionEventV::Matched(m@)),
    {
        match m {
            ParsedTradingViewMessage::ServerHello(h) => {
                self.result.server_hello_messages.push(h);
                let auth = crate::commands::set_auth_token(self.config.auth_token.as_str());
                let locale = crate::commands::set_locale("en", "US");
                let step = self.advance_chart(0);
                let mut sends: Vec<String> = Vec::new();
                sends.push(auth);
                sends.push(locale);
                let mut i: usize = 0;
                let n = step.sends.len();
                while i < n
                    invariant
                        i <= n,
                        n == step.sends@.len(),
                        sends@.len() == i + 2,
                        sends@[0]@ == set_auth_token_cmd(old(self)@.config.auth_token),
                        sends@[1]@ == set_locale_cmd("en"@, "US"@),
                        forall|p: int|
                            2 <= p < i + 2 ==> (#[trigger] sends@[p])@ == step.sends@[p - 2]@,
                    decreases n - i,
                {
                    sends.push(step.sends[i].clone());
                    i = i + 1;
                }
                proof {
                    assert(strings_view(sends@) =~= seq![
                        set_auth_token_cmd(old(self)@.config.auth_token),
                        set_locale_cmd("en"@, "US"@),
                    ] + strings_view(step.sends@));
                }
                SessionStep { sends, next: step.next }
            },
            _ => self.fail(SessionError::TypeMismatch),
        }
    }

    fn handle_symbol_resolved(&mut self, m: ParsedTradingViewMessage) -> (r: SessionStep)
        requires
            old(self)@.phase == SessionPhase::AwaitSymbolResolved,
            client_inv(old(self)@),
        ensures
            (final(self)@, r@) == spec_step(old(self)@, SessionEventV::Matched(m@)),
    {
        match m {
            ParsedTradingViewMessage::SymbolResolved(sr) => {
                let (tf, rg) = match (&self.config.timeframe, self.config.range) {
                    (Some(tf), Some(rg)) => (tf.clone(), rg),
                    _ => {
                        return self.fail(SessionError::InvalidConfig);
                    },
                };
                self.result.symbol_resolved_messages.push(sr);
                let cn = self.config.chart_symbols.len();
                proof {
                    assert(self.chart_index < cn);
                    assert((self.chart_index as u64) < u64::MAX);
                }
                let cs = chart_session_id((self.chart_index as u64) + 1);
                let mut sends: Vec<String> = Vec::new();
                sends.push(
                    crate::commands::create_series(
                        cs.as_str(),
                        "sds_1",
                        "s1",
                        "sds_sym_1",
                        tf.as_str(),
                        rg,
                    ),
                );
                sends.push(crate::commands::switch_timezone(cs.as_str(), "exchange"));
                proof {
                    assert(strings_view(sends@) =~= seq![
                        create_series_cmd(
                            cs@,
                            "sds_1"@,
                            "s1"@,
                            "sds_sym_1"@,
                            old(self)@.config.timeframe->Some_0,
                            old(self)@.config.range->Some_0 as nat,
                        ),
                        switch_timezone_cmd(cs@, "exchange"@),
                    ]);
                }
                self.phase = SessionPhase::AwaitSeriesLoading;
                SessionStep {
                    sends,
                    next: SessionAction::Wait(
                        MessagePredicate::Kind(MessageKind::SeriesLoading),
                        2000,
                    ),
                }
            },
            _ => self.fail(SessionError::TypeMismatch),
        }
    }

    fn handle_series_loading(&mut self, m: ParsedTradingViewMessage) -> (r: SessionStep)
        requires
            old(self)@.phase == SessionPhase::AwaitSeriesLoading,
            client_inv(old(self)@),
        ensures
            (final(self)@, r@) == spec_step(old(self)@, SessionEventV::Matched(m@)),
    {
        match m {
            ParsedTradingViewMessage::SeriesLoading(sl) => {
                self.result.series_loading_messages.push(sl);
                self.phase = SessionPhase::AwaitTimescaleUpdate;
                let r = SessionStep {
                    sends: Vec::new(),
                    next: SessionAction::Wait(
                        MessagePredicate::Kind(MessageKind::TimescaleUpdate),
                        2000,
                    ),
                };
                proof {
                    assert(strings_view(r.sends@) =~= Seq::<Seq<char>>::empty());
                }
                r
            },
            _ => self.fail(SessionError::TypeMismatch),
        }
    }

    fn handle_timescale_update(&mut self, m: ParsedTradingViewMessage) -> (r: SessionStep)
        requires
            old(self)@.phase == SessionPhase::AwaitTimescaleUpdate,
            client_inv(old(self)@),
        ensures
            (final(self)@, r@) == spec_step(old(self)@, SessionEventV::Matched(m@)),
    {
        match m {
            ParsedTradingViewMessage::TimescaleUpdate(t) => {
                let ghost old_list = self.result@.timescale_update_messages;
                let ghost tv = t@;
                self.result.timescale_update_messages.push(t);
                proof {
                    assert(records_view(self.result.timescale_update_messages@)
                        =~= old_list.push(tv));
                }
                self.phase = SessionPhase::AwaitSeriesCompleted;
                let r = SessionStep {
                    sends: Vec::new(),
                    next: SessionAction::Wait(
                        MessagePredicate::Kind(MessageKind::SeriesCompleted),
                        2000,
                    ),
                };
                proof {
                    assert(strings_view(r.sends@) =~= Seq::<Seq<char>>::empty());
                }
                r
            },
            _ => self.fail(SessionError::TypeMismatch),
        }
    }

    fn handle_series_completed(&mut self, m: ParsedTradingViewMessage) -> (r: SessionStep)
        requires
            old(self)@.phase == SessionPhase::AwaitSeriesCompleted,
            client_inv(old(self)@),
        ensures
            (final(self)@, r@) == spec_step(old(self)@, SessionEventV::Matched(m@)),
    {
        match m {
            ParsedTradingViewMessage::SeriesCompleted(sc) => {
                self.result.series_completed_messages.push(sc);
                let cn = self.config.chart_symbols.len();
                proof {
                    assert(self.chart_index < cn);
                    assert((self.chart_index as u64) < u64::MAX);
                }
                if self.config.indicators.len() > 0 {
                    let cs = chart_session_id((self.chart_index as u64) + 1);
                    let mut sends: Vec<String> = Vec::new();
                    sends.push(
                        crate::commands::create_study(
                            cs.as_str(),
                            "st1",
                            "sessions_1",
                            "sds_1",
                            "Sessions@tv-basicstudies-241",
                            "{}",
                        ),
                    );
                    proof {
                        assert(strings_view(sends@) =~= seq![
                            create_study_cmd(
                                cs@,
                                "st1"@,
                                "sessions_1"@,
                                "sds_1"@,
                                "Sessions@tv-basicstudies-241"@,
                                "{}"@,
                            ),
                        ]);
                    }
                    self.phase = SessionPhase::AwaitBaselineStudyLoading;
                    SessionStep {
                        sends,
                        next: SessionAction::Wait(
                            MessagePredicate::Kind(MessageKind::StudyLoading),
                            10000,
                        ),
                    }
                } else {
                    let cn = self.config.chart_symbols.len();
                    proof {
                        assert(self.chart_index < cn);
                    }
                    let i = self.chart_index + 1;
                    self.advance_chart(i)
                }
            },
            _ => self.fail(SessionError::TypeMismatch),
        }
    }

    fn handle_baseline_study_loading(&mut self, m: ParsedTradingViewMessage) -> (r: SessionStep)
        requires
            old(self)@.phase == SessionPhase::AwaitBaselineStudyLoading,
            client_inv(old(self)@),
        ensures
            (final(self)@, r@) == spec_step(old(self)@, SessionEventV::Matched(m@)),
    {
        match m {
            ParsedTradingViewMessage::StudyLoading(sl) => {
                self.result.study_loading_messages.push(sl);
                self.phase = SessionPhase::AwaitBaselineStudyCompleted;
                let r = SessionStep {
                    sends: Vec::new(),
                    next: SessionAction::Wait(
                        MessagePredicate::Kind(MessageKind::StudyCompleted),
                        3000,
                    ),
                };
                proof {
                    assert(strings_view(r.sends@) =~= Seq::<Seq<char>>::empty());
                }
                r
            },
            _ => self.fail(SessionError::TypeMismatch),
        }
    }

    fn handle_baseline_study_completed(&mut self, m: ParsedTradingViewMessage) -> (r: SessionStep)
        requires
            old(self)@.phase == SessionPhase::AwaitBaselineStudyCompleted,
            client_inv(old(self)@),
        ensures
            (final(self)@, r@) == spec_step(old(self)@, SessionEventV::Matched(m@)),
    {
        match m {
            ParsedTradingViewMessage::StudyCompleted(sc) => {
                self.result.study_completed_messages.push(sc);
                self.start_indicator(0)
            },
            _ => self.fail(SessionError::TypeMismatch),
        }
    }

    fn handle_study_loading(&mut self, m: ParsedTradingViewMessage) -> (r: SessionStep)
        requires
            old(self)@.phase == SessionPhase::AwaitStudyLoading,
            client_inv(old(self)@),
        ensures
            (final(self)@, r@) == spec_step(old(self)@, SessionEventV::Matched(m@)),
    {
        match m {
            ParsedTradingViewMessage::StudyLoading(sl) => {
                self.result.study_loading_messages.push(sl);
                self.phase = SessionPhase::AwaitStudyCompleted;
                let r = SessionStep {
                    sends: Vec::new(),
                    next: SessionAction::Wait(
                        MessagePredicate::Kind(MessageKind::StudyCompleted),
                        3000,
                    ),
                };
                proof {
                    assert(strings_view(r.sends@) =~= Seq::<Seq<char>>::empty());
                }
                r
            },
            _ => self.fail(SessionError::TypeMismatch),
        }
    }

    fn handle_study_completed(&mut self, m: ParsedTradingViewMessage) -> (r: SessionStep)
        requires
            old(self)@.phase == SessionPhase::AwaitStudyCompleted,
            client_inv(old(self)@),
        ensures
            (final(self)@, r@) == spec_step(old(self)@, SessionEventV::Matched(m@)),
    {
        match m {
            ParsedTradingViewMessage::StudyCompleted(sc) => {
                self.result.study_completed_messages.push(sc);
                self.phase = SessionPhase::AwaitStudyDataUpdate;
                let r = SessionStep {
                    sends: Vec::new(),
                    next: SessionAction::Wait(MessagePredicate::StudyDataUpdateNonEmpty, 3000),
                };
                proof {
                    assert(strings_view(r.sends@) =~= Seq::<Seq<char>>::empty());
                }
                r
            },
            _ => self.fail(SessionError::TypeMismatch),
        }
    }

    fn handle_study_data_update(&mut self, m: ParsedTradingViewMessage) -> (r: SessionStep)
        requires
            old(self)@.phase == SessionPhase::AwaitStudyDataUpdate,
            client_inv(old(self)@),
        ensures
            (final(self)@, r@) == spec_step(old(self)@, SessionEventV::Matched(m@)),
    {
        match m {
            ParsedTradingViewMessage::DataUpdate(d) => {
                let ghost old_list = self.result@.study_data_update_messages;
                let ghost dv = d@;
                self.result.study_data_update_messages.push(d);
                proof {
                    assert(records_view(self.result.study_data_update_messages@)
                        =~= old_list.push(dv));
                }
                let isn = self.config.indicators.len();
                let cn = self.config.chart_symbols.len();
                proof {
                    assert(self.indicator_index < isn);
                    assert(self.chart_index < cn);
                }
                if self.indicator_index + 1 < isn {
                    let j = self.indicator_index + 1;
                    self.start_indicator(j)
                } else {
                    let i = self.chart_index + 1;
                    self.advance_chart(i)
                }
            },
            _ => self.fail(SessionError::TypeMismatch),
        }
    }

    fn handle_quote_completed(&mut self, m: ParsedTradingViewMessage) -> (r: SessionStep)
        requires
            old(self)@.phase == SessionPhase::AwaitQuoteCompleted,
            client_inv(old(self)@),
        ensures
            (final(self)@, r@) == spec_step(old(self)@, SessionEventV::Matched(m@)),
    {
        match m {
            ParsedTradingViewMessage::QuoteCompleted(qc) => {
                let ghost old_list = self.result@.quote_completed_messages;
                let ghost qv = qc@;
                self.result.quote_completed_messages.push(qc);
                proof {
                    assert(records_view(self.result.quote_completed_messages@)
                        =~= old_list.push(qv));
                }
                self.phase = SessionPhase::AwaitQuoteLastPrice;
                let r = SessionStep {
                    sends: Vec::new(),
                    next: SessionAction::Wait(MessagePredicate::QuoteLastPrice, 2000),
                };
                proof {
                    assert(strings_view(r.sends@) =~= Seq::<Seq<char>>::empty());
                }
                r
            },
            _ => self.fail(SessionError::TypeMismatch),
        }
    }

    fn handle_quote_last_price(&mut self, m: ParsedTradingViewMessage) -> (r: SessionStep)
        requires
            old(self)@.phase == SessionPhase::AwaitQuoteLastPrice,
            client_inv(old(self)@),
        ensures
            (final(self)@, r@) == spec_step(old(self)@, SessionEventV::Matched(m@)),
    {
        match m {
            ParsedTradingViewMessage::QuoteSeriesData(q) => {
                let ghost old_list = self.result@.quote_last_price_messages;
                let ghost qv = q@;
                self.result.quote_last_price_messages.push(q);
                proof {
                    assert(records_view(self.result.quote_last_price_messages@)
                        =~= old_list.push(qv));
                }
                let qn = self.config.quote_symbols.len();
                proof {
                    assert(self.quote_index < qn);
                }
                if self.quote_index + 1 < qn {
                    let k = self.quote_index + 1;
                    self.start_quote(k)
                } else {
                    self.quote_index = self.quote_index + 1;
                    self.finish()
                }
            },
            _ => self.fail(SessionError::TypeMismatch),
        }
    }

    /// Feeds one event to the machine.  The returned step names the
    /// texts to send, in order, and the action to drive next; the
    /// machine follows [`spec_step`] exactly and keeps its invariant.
    pub fn step(&mut self, event: SessionEvent) -> (r: SessionStep)
        requires
            client_inv(old(self)@),
        ensures
            (final(self)@, r@) == spec_step(old(self)@, event@),
            client_inv(final(self)@),
    {
        proof {
            lemma_step_preserves_inv(old(self)@, event@);
        }
        let phase = self.phase;
        match (phase, event) {
            (SessionPhase::Idle, SessionEvent::Started) => {
                self.phase = SessionPhase::AwaitHello;
                let r = SessionStep {
                    sends: Vec::new(),
                    next: SessionAction::Wait(
                        MessagePredicate::Kind(MessageKind::ServerHello),
                        5000,
                    ),
                };
                proof {
                    assert(strings_view(r.sends@) =~= Seq::<Seq<char>>::empty());
                }
                r
            },
            (SessionPhase::Idle, _) => self.fail(SessionError::NotReady),
            (SessionPhase::AwaitHello, SessionEvent::Matched(m)) => self.handle_hello(m),
            (SessionPhase::AwaitSymbolResolved, SessionEvent::Matched(m)) => self
                .handle_symbol_resolved(m),
            (SessionPhase::AwaitSeriesLoading, SessionEvent::Matched(m)) => self
                .handle_series_loading(m),
            (SessionPhase::AwaitTimescaleUpdate, SessionEvent::Matched(m)) => self
                .handle_timescale_update(m),
            (SessionPhase::AwaitSeriesCompleted, SessionEvent::Matched(m)) => self
                .handle_series_completed(m),
            (SessionPhase::AwaitBaselineStudyLoading, SessionEvent::Matched(m)) => self
                .handle_baseline_study_loading(m),
            (SessionPhase::AwaitBaselineStudyCompleted, SessionEvent::Matched(m)) => self
                .handle_baseline_study_completed(m),
            (SessionPhase::AwaitStudyLoading, SessionEvent::Matched(m)) => self
                .handle_study_loading(m),
            (SessionPhase::AwaitStudyCompleted, SessionEvent::Matched(m)) => self
                .handle_study_completed(m),
            (SessionPhase::AwaitStudyDataUpdate, SessionEvent::Matched(m)) => self
                .handle_study_data_update(m),
            (SessionPhase::AwaitQuoteCompleted, SessionEvent::Matched(m)) => self
                .handle_quote_completed(m),
            (SessionPhase::AwaitQuoteLastPrice, SessionEvent::Matched(m)) => self
                .handle_quote_last_price(m),
            (SessionPhase::Streaming, _) => self.fail(SessionError::NotReady),
            (SessionPhase::Done, _) => self.fail(SessionError::NotReady),
            (SessionPhase::Failed, _) => self.fail(SessionError::NotReady),
            (_, SessionEvent::TimedOut) => self.fail(SessionError::TimedOut),
            (_, _) => self.fail(SessionError::NotReady),
        }
    }
}
/// What the streaming dispatch loop does with one message.
#[derive(Debug)]
pub enum StreamAction {
    /// Reply with exactly this heartbeat text; the message is not
    /// forwarded to the processor.
    SendPong(String),
    /// Hand the message to the processor.
    Process(ParsedTradingViewMessage),
}

/// The streaming dispatch decision: a heartbeat is answered with the
/// reply text for its nonce and nothing else; every other message is
/// forwarded to the processor unchanged.
pub fn streaming_step(message: ParsedTradingViewMessage) -> (r: StreamAction)
    ensures
        match message@ {
            ParsedMessageV::Ping(n) => r matches StreamAction::SendPong(s) && s@ == pong_cmd(
                n as nat,
            ),
            _ => r matches StreamAction::Process(m) && m@ == message@,
        },
{
    match message {
        ParsedTradingViewMessage::Ping(nonce) => StreamAction::SendPong(
            crate::commands::pong(nonce),
        ),
        _ => StreamAction::Process(message),
    }
}

/// Configuration order of the snapshot: a record is appended only at
/// the step that matches it, and at that step the list's length equals
/// the index of the symbol being established.  So position `i` of each
/// per-chart list holds the record matched while the machine worked on
/// `chart_symbols[i]`, and position `k` of each per-quote list the one
/// matched while it worked on `quote_symbols[k]`; nothing ties a
/// record's content to the symbol, since the server echo is not
/// checked.
pub proof fn lemma_records_in_configuration_order(c: ClientV, e: SessionEventV)
    requires
        client_inv(c),
    ensures
        c.phase == SessionPhase::AwaitSymbolResolved ==> (e matches SessionEventV::Matched(
            ParsedMessageV::SymbolResolved(sr),
        ) ==> c.result.symbol_resolved_messages.len() == c.chart_index && ((
        c.config.timeframe is Some && c.config.range is Some) ==> spec_step(
            c,
            e,
        ).0.result.symbol_resolved_messages == c.result.symbol_resolved_messages.push(sr))),
        c.phase == SessionPhase::AwaitSeriesLoading ==> (e matches SessionEventV::Matched(
            ParsedMessageV::SeriesLoading(sl),
        ) ==> spec_step(c, e).0.result.series_loading_messages
            == c.result.series_loading_messages.push(sl)
            && c.result.series_loading_messages.len() == c.chart_index),
        c.phase == SessionPhase::AwaitTimescaleUpdate ==> (e matches SessionEventV::Matched(
            ParsedMessageV::TimescaleUpdate(t),
        ) ==> spec_step(c, e).0.result.timescale_update_messages
            == c.result.timescale_update_messages.push(t)
            && c.result.timescale_update_messages.len() == c.chart_index),
        c.phase == SessionPhase::AwaitSeriesCompleted ==> (e matches SessionEventV::Matched(
            ParsedMessageV::SeriesCompleted(sc),
        ) ==> spec_step(c, e).0.result.series_completed_messages
            == c.result.series_completed_messages.push(sc)
            && c.result.series_completed_messages.len() == c.chart_index),
        c.phase == SessionPhase::AwaitQuoteCompleted ==> (e matches SessionEventV::Matched(
            ParsedMessageV::QuoteCompleted(qc),
        ) ==> spec_step(c, e).0.result.quote_completed_messages
            == c.result.quote_completed_messages.push(qc)
            && c.result.quote_completed_messages.len() == c.quote_index),
        c.phase == SessionPhase::AwaitQuoteLastPrice ==> (e matches SessionEventV::Matched(
            ParsedMessageV::QuoteSeriesData(q),
        ) ==> spec_step(c, e).0.result.quote_last_price_messages
            == c.result.quote_last_price_messages.push(q)
            && c.result.quote_last_price_messages.len() == c.quote_index),
{
}

/// The machine after starting from `c` and consuming `events` in
/// order.
pub open spec fn run_spec(c: ClientV, events: Seq<SessionEventV>) -> ClientV
    decreases events.len(),
{
    if events.len() == 0 {
        c
    } else {
        run_spec(spec_step(c, events[0]).0, events.drop_first())
    }
}

/// The invariant holds along every run.
pub proof fn lemma_run_preserves_inv(c: ClientV, events: Seq<SessionEventV>)
    requires
        client_inv(c),
    ensures
        client_inv(run_spec(c, events)),
    decreases events.len(),
{
    if events.len() > 0 {
        lemma_step_preserves_inv(c, events[0]);
        lemma_run_preserves_inv(spec_step(c, events[0]).0, events.drop_first());
    }
}

} // verus!
