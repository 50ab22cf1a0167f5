//! A verified client core for a charting-service streaming protocol.
//!
//! The library covers the protocol session engine: the frame codec that
//! wraps payloads in the transport envelope, the typed message model with
//! its lenient-JSON parsing rules, the shared message buffer with its
//! timeout-bound wait primitive, the session state machine that sequences
//! outbound commands against inbound waits, and the stateful processor
//! that merges streaming updates into a last-known-value record.
//!
//! Network transport, scheduling and file output live outside the library
//! and talk to it through plain values.

use vstd::prelude::*;

mod buffer;
mod codec;
mod commands;
mod config;
mod decimal;
mod json;
mod messages;
mod parsed_message;
mod processor;
mod session;

pub use buffer::MessageBuffer;
pub use buffer::MessagePredicate;
pub use buffer::WaitPoll;
pub use buffer::find_first_match;
pub use buffer::pred_matches;
pub use buffer::lemma_wait_timeout_boundary;
pub use buffer::wait_poll_step;
pub use codec::MessageWrapperV;
pub use codec::TradingViewMessageWrapper;
pub use codec::decode;
pub use codec::frame_decode;
pub use codec::frame_decode_from;
pub use codec::frame_encode;
pub use codec::payloads_view;
pub use codec::decode_and_parse;
pub use codec::encode;
pub use codec::lemma_frame_round_trip;
pub use commands::TradingViewSymbols;
pub use commands::build_symbol_spec;
pub use commands::chart_create_session_cmd;
pub use commands::chart_session_id_spec;
pub use commands::create_series_cmd;
pub use commands::create_study_cmd;
pub use commands::pong_cmd;
pub use commands::quote_add_symbols_cmd;
pub use commands::quote_create_session_cmd;
pub use commands::quote_fast_symbols_cmd;
pub use commands::quote_session_id_spec;
pub use commands::quote_set_fields_cmd;
pub use commands::request_more_data_cmd;
pub use commands::request_more_tickmarks_cmd;
pub use commands::resolve_symbol_cmd;
pub use commands::set_auth_token_cmd;
pub use commands::set_locale_cmd;
pub use commands::study_id_spec;
pub use commands::switch_timezone_cmd;
pub use commands::zero_padded_12;
pub use commands::chart_create_session;
pub use commands::chart_session_id;
pub use commands::create_series;
pub use commands::create_study;
pub use commands::format_zero_padded_12;
pub use commands::pong;
pub use commands::quote_add_symbols;
pub use commands::quote_create_session;
pub use commands::quote_fast_symbols;
pub use commands::quote_session_id;
pub use commands::quote_set_fields;
pub use commands::request_more_data;
pub use commands::request_more_tickmarks;
pub use commands::resolve_symbol;
pub use commands::set_auth_token;
pub use commands::set_locale;
pub use commands::study_id;
pub use commands::switch_timezone;
pub use config::Config;
pub use decimal::all_digits;
pub use decimal::char_digit;
pub use decimal::dec_rep;
pub use decimal::dec_val;
pub use decimal::digit_char;
pub use decimal::is_digit;
pub use decimal::lemma_dec_round_trip;
pub use decimal::parse_u64_decimal;
pub use decimal::u64_to_decimal_string;
pub use json::FloatBits;
pub use json::JsonNumber;
pub use json::JsonVal;
pub use json::JsonValue;
pub use json::ParseError;
pub use json::is_null;
pub use json::jobj_of;
pub use json::jseq_of;
pub use json::json_parse;
pub use json::jval_of;
pub use json::obj_contains;
pub use json::obj_get;
pub use json::object_get;
pub use json::s_as_arr;
pub use json::s_as_float_bits;
pub use json::s_as_num;
pub use json::s_as_obj;
pub use json::s_as_text;
pub use json::s_as_uint;
pub use json::s_as_uint_cast;
pub use json::value_to_array;
pub use json::value_to_bool;
pub use json::value_to_float_bits;
pub use json::value_to_number;
pub use json::value_to_object;
pub use json::value_to_string;
pub use json::value_to_u64;
pub use json::value_to_u64_cast;
pub use messages::CriticalErrorMessage;
pub use messages::DataUpdateV;
pub use messages::QuoteCompletedV;
pub use messages::QuoteSeriesDataUpdateV;
pub use messages::QuoteSeriesDataV;
pub use messages::StudyUpdateV;
pub use messages::TimescaleUpdatedV;
pub use messages::sp_data_update;
pub use messages::sp_quote_completed;
pub use messages::sp_quote_series_data;
pub use messages::sp_series_update;
pub use messages::sp_series_updates;
pub use messages::sp_study_update;
pub use messages::sp_study_updates;
pub use messages::sp_timescale_update;
pub use messages::sp_ts_update;
pub use messages::sp_ts_updates;
pub use messages::DataUpdateMessage;
pub use messages::NotifyUserMessage;
pub use messages::ProtocolErrorMessage;
pub use messages::QuoteCompletedMessage;
pub use messages::QuoteSeriesDataMessage;
pub use messages::QuoteSeriesDataUpdate;
pub use messages::SeriesCompletedMessage;
pub use messages::SeriesLoadingMessage;
pub use messages::SeriesUpdate;
pub use messages::ServerHelloMessage;
pub use messages::StudyCompletedMessage;
pub use messages::StudyErrorMessage;
pub use messages::StudyLoadingMessage;
pub use messages::StudyUpdate;
pub use messages::SymbolResolvedMessage;
pub use messages::TickmarkUpdateMessage;
pub use messages::TimescaleUpdate;
pub use messages::TimescaleUpdatedMessage;
pub use parsed_message::MessageKind;
pub use parsed_message::kind_of;
pub use parsed_message::parse_message_spec;
pub use parsed_message::ParsedMessageV;
pub use parsed_message::ParsedTradingViewMessage;
pub use parsed_message::lemma_heartbeat_reply_parses_back;
pub use processor::ProcessWarning;
pub use processor::ProcessorV;
pub use processor::empty_processor;
pub use processor::merge_quote;
pub use processor::spec_process;
pub use processor::StatefulMessageProcessor;
pub use processor::lemma_exactly_one_policy;
pub use processor::lemma_process_quote_idempotent;
pub use processor::lemma_quote_merge_idempotent;
pub use processor::lemma_quote_merge_monotonic;
pub use session::ClientV;
pub use session::ConfigV;
pub use session::ScrapeResultV;
pub use session::SessionEventV;
pub use session::SessionStepV;
pub use session::empty_scrape_result;
pub use session::initial_client;
pub use session::SessionAction;
pub use session::SessionError;
pub use session::SessionEvent;
pub use session::SessionPhase;
pub use session::SessionStep;
pub use session::StreamAction;
pub use session::TradingViewClient;
pub use session::TradingViewClientConfig;
pub use session::TradingViewClientMode;
pub use session::TradingViewScrapeResult;
pub use session::client_inv;
pub use session::lemma_records_in_configuration_order;
pub use session::lemma_run_preserves_inv;
pub use session::lemma_snapshot_counts;
pub use session::lemma_step_preserves_inv;
pub use session::run_spec;
pub use session::spec_step;
pub use session::streaming_step;
