//! The closed set of protocol messages and the payload parser.
//!
//! [`ParsedTradingViewMessage::from_string`] turns one decoded payload
//! into exactly one message, or fails; the rule it follows is
//! [`parse_message_spec`].

use vstd::prelude::*;

use crate::decimal::all_digits;
use crate::decimal::dec_val;
use crate::decimal::parse_u64_decimal;
use crate::json::JsonVal;
use crate::json::JsonValue;
use crate::json::ParseError;
use crate::json::json_parse;
use crate::json::obj_contains;
use crate::json::obj_get;
use crate::json::object_contains_key;
use crate::json::object_get;
use crate::json::parse_json;
use crate::json::s_as_obj;
use crate::json::s_as_text;
use crate::json::value_to_string;
use crate::messages::CriticalErrorMessage;
use crate::messages::DataUpdateMessage;
use crate::messages::DataUpdateV;
use crate::messages::NotifyUserMessage;
use crate::messages::ProtocolErrorMessage;
use crate::messages::QuoteCompletedMessage;
use crate::messages::QuoteCompletedV;
use crate::messages::QuoteSeriesDataMessage;
use crate::messages::QuoteSeriesDataV;
use crate::messages::SeriesCompletedMessage;
use crate::messages::SeriesLoadingMessage;
use crate::messages::ServerHelloMessage;
use crate::messages::StudyCompletedMessage;
use crate::messages::StudyErrorMessage;
use crate::messages::StudyLoadingMessage;
use crate::messages::SymbolResolvedMessage;
use crate::messages::TickmarkUpdateMessage;
use crate::messages::TimescaleUpdatedMessage;
use crate::messages::TimescaleUpdatedV;
use crate::messages::sp_data_update;
use crate::messages::sp_quote_completed;
use crate::messages::sp_quote_series_data;
use crate::messages::sp_timescale_update;

verus! {

/// One parsed protocol message.
#[derive(Debug, Clone, PartialEq)]
pub enum ParsedTradingViewMessage {
    Ping(u64),
    ServerHello(ServerHelloMessage),
    QuoteSeriesData(QuoteSeriesDataMessage),
    DataUpdate(DataUpdateMessage),
    QuoteCompleted(QuoteCompletedMessage),
    TimescaleUpdate(TimescaleUpdatedMessage),
    SeriesLoading(SeriesLoadingMessage),
    SymbolResolved(SymbolResolvedMessage),
    SeriesCompleted(SeriesCompletedMessage),
    StudyLoading(StudyLoadingMessage),
    StudyError(StudyErrorMessage),
    StudyCompleted(StudyCompletedMessage),
    TickmarkUpdate(TickmarkUpdateMessage),
    CriticalError(CriticalErrorMessage),
    ProtocolError(ProtocolErrorMessage),
    NotifyUser(NotifyUserMessage),
}

/// The view of a [`ParsedTradingViewMessage`].
pub enum ParsedMessageV {
    Ping(u64),
    ServerHello(ServerHelloMessage),
    QuoteSeriesData(QuoteSeriesDataV),
    DataUpdate(DataUpdateV),
    QuoteCompleted(QuoteCompletedV),
    TimescaleUpdate(TimescaleUpdatedV),
    SeriesLoading(SeriesLoadingMessage),
    SymbolResolved(SymbolResolvedMessage),
    SeriesCompleted(SeriesCompletedMessage),
    StudyLoading(StudyLoadingMessage),
    StudyError(StudyErrorMessage),
    StudyCompleted(StudyCompletedMessage),
    TickmarkUpdate(TickmarkUpdateMessage),
    CriticalError(CriticalErrorMessage),
    ProtocolError(ProtocolErrorMessage),
    NotifyUser(NotifyUserMessage),
}

impl View for ParsedTradingViewMessage {
    type V = ParsedMessageV;

    open spec fn view(&self) -> ParsedMessageV {
        match self {
            ParsedTradingViewMessage::Ping(n) => ParsedMessageV::Ping(*n),
            ParsedTradingViewMessage::ServerHello(m) => ParsedMessageV::ServerHello(*m),
            ParsedTradingViewMessage::QuoteSeriesData(m) => ParsedMessageV::QuoteSeriesData(m@),
            ParsedTradingViewMessage::DataUpdate(m) => ParsedMessageV::DataUpdate(m@),
            ParsedTradingViewMessage::QuoteCompleted(m) => ParsedMessageV::QuoteCompleted(m@),
            ParsedTradingViewMessage::TimescaleUpdate(m) => ParsedMessageV::TimescaleUpdate(m@),
            ParsedTradingViewMessage::SeriesLoading(m) => ParsedMessageV::SeriesLoading(*m),
            ParsedTradingViewMessage::SymbolResolved(m) => ParsedMessageV::SymbolResolved(*m),
            ParsedTradingViewMessage::SeriesCompleted(m) => ParsedMessageV::SeriesCompleted(*m),
            ParsedTradingViewMessage::StudyLoading(m) => ParsedMessageV::StudyLoading(*m),
            ParsedTradingViewMessage::StudyError(m) => ParsedMessageV::StudyError(*m),
            ParsedTradingViewMessage::StudyCompleted(m) => ParsedMessageV::StudyCompleted(*m),
            ParsedTradingViewMessage::TickmarkUpdate(m) => ParsedMessageV::TickmarkUpdate(*m),
            ParsedTradingViewMessage::CriticalError(m) => ParsedMessageV::CriticalError(*m),
            ParsedTradingViewMessage::ProtocolError(m) => ParsedMessageV::ProtocolError(*m),
            ParsedTradingViewMessage::NotifyUser(m) => ParsedMessageV::NotifyUser(*m),
        }
    }
}

/// The kind of a message, without its payload.
#[derive(Debug, Clone, Copy, PartialEq, Eq, Structural)]
pub enum MessageKind {
    Ping,
    ServerHello,
    QuoteSeriesData,
    DataUpdate,
    QuoteCompleted,
    TimescaleUpdate,
    SeriesLoading,
    SymbolResolved,
    SeriesCompleted,
    StudyLoading,
    StudyError,
    StudyCompleted,
    TickmarkUpdate,
    CriticalError,
    ProtocolError,
    NotifyUser,
}

/// The kind of a message view.
pub open spec fn kind_of(m: ParsedMessageV) -> MessageKind {
    match m {
        ParsedMessageV::Ping(_) => MessageKind::Ping,
        ParsedMessageV::ServerHello(_) => MessageKind::ServerHello,
        ParsedMessageV::QuoteSeriesData(_) => MessageKind::QuoteSeriesData,
        ParsedMessageV::DataUpdate(_) => MessageKind::DataUpdate,
        ParsedMessageV::QuoteCompleted(_) => MessageKind::QuoteCompleted,
        ParsedMessageV::TimescaleUpdate(_) => MessageKind::TimescaleUpdate,
        ParsedMessageV::SeriesLoading(_) => MessageKind::SeriesLoading,
        ParsedMessageV::SymbolResolved(_) => MessageKind::SymbolResolved,
        ParsedMessageV::SeriesCompleted(_) => MessageKind::SeriesCompleted,
        ParsedMessageV::StudyLoading(_) => MessageKind::StudyLoading,
        ParsedMessageV::StudyError(_) => MessageKind::StudyError,
        ParsedMessageV::StudyCompleted(_) => MessageKind::StudyCompleted,
        ParsedMessageV::TickmarkUpdate(_) => MessageKind::TickmarkUpdate,
        ParsedMessageV::CriticalError(_) => MessageKind::CriticalError,
        ParsedMessageV::ProtocolError(_) => MessageKind::ProtocolError,
        ParsedMessageV::NotifyUser(_) => MessageKind::NotifyUser,
    }
}

/// The parsing rule for one payload.
///
/// A payload opening with the heartbeat prefix must continue with the
/// decimal nonce and nothing else.  Any other payload must be a JSON
/// object: one carrying the greeting marker key is the greeting; the
/// rest dispatch on the `"m"` tag over the closed tag set, and an
/// unknown tag is a protocol violation.
pub open spec fn parse_message_spec(s: Seq<char>) -> Result<ParsedMessageV, ()> {
    if s.len() >= 3 && s[0] == '~' && s[1] == 'h' && s[2] == '~' {
        let rest = s.subrange(3, s.len() as int);
        if rest.len() >= 1 && all_digits(rest) && dec_val(rest) <= u64::MAX {
            Ok(ParsedMessageV::Ping(dec_val(rest) as u64))
        } else {
            Err(())
        }
    } else {
        match json_parse(s) {
            None => Err(()),
            Some(jv) => match s_as_obj(jv) {
                None => Err(()),
                Some(entries) => parse_object_spec(entries),
            },
        }
    }
}

/// The dispatch rule for a JSON payload already read as an object.
pub open spec fn parse_object_spec(entries: Seq<(Seq<char>, JsonVal)>) -> Result<
    ParsedMessageV,
    (),
> {
    if obj_contains(entries, "javastudies"@) {
        Ok(ParsedMessageV::ServerHello(ServerHelloMessage {}))
    } else {
        match obj_get(entries, "m"@) {
            None => Err(()),
            Some(mv) => match s_as_text(mv) {
                None => Err(()),
                Some(tag) => parse_tagged_spec(entries, tag),
            },
        }
    }
}

/// The tag dispatch rule.  The tag set is closed; the misspelled
/// protocol-error tag is the one the remote service actually sends.
pub open spec fn parse_tagged_spec(entries: Seq<(Seq<char>, JsonVal)>, tag: Seq<char>) -> Result<
    ParsedMessageV,
    (),
> {
    if tag == "qsd"@ {
        match sp_quote_series_data(entries) {
            Ok(m) => Ok(ParsedMessageV::QuoteSeriesData(m)),
            Err(e) => Err(e),
        }
    } else if tag == "du"@ {
        match sp_data_update(entries) {
            Ok(m) => Ok(ParsedMessageV::DataUpdate(m)),
            Err(e) => Err(e),
        }
    } else if tag == "quote_completed"@ {
        match sp_quote_completed(entries) {
            Ok(m) => Ok(ParsedMessageV::QuoteCompleted(m)),
            Err(e) => Err(e),
        }
    } else if tag == "timescale_update"@ {
        match sp_timescale_update(entries) {
            Ok(m) => Ok(ParsedMessageV::TimescaleUpdate(m)),
            Err(e) => Err(e),
        }
    } else if tag == "series_loading"@ {
        Ok(ParsedMessageV::SeriesLoading(SeriesLoadingMessage {}))
    } else if tag == "symbol_resolved"@ {
        Ok(ParsedMessageV::SymbolResolved(SymbolResolvedMessage {}))
    } else if tag == "series_completed"@ {
        Ok(ParsedMessageV::SeriesCompleted(SeriesCompletedMessage {}))
    } else if tag == "study_loading"@ {
        Ok(ParsedMessageV::StudyLoading(StudyLoadingMessage {}))
    } else if tag == "study_error"@ {
        Ok(ParsedMessageV::StudyError(StudyErrorMessage {}))
    } else if tag == "study_completed"@ {
        Ok(ParsedMessageV::StudyCompleted(StudyCompletedMessage {}))
    } else if tag == "tickmark_update"@ {
        Ok(ParsedMessageV::TickmarkUpdate(TickmarkUpdateMessage {}))
    } else if tag == "critical_error"@ {
        Ok(ParsedMessageV::CriticalError(CriticalErrorMessage {}))
    } else if tag == "protcol_error"@ {
        Ok(ParsedMessageV::ProtocolError(ProtocolErrorMessage {}))
    } else if tag == "notify_user"@ {
        Ok(ParsedMessageV::NotifyUser(NotifyUserMessage {}))
    } else {
        Err(())
    }
}

/// Heartbeat round trip: the reply text built for nonce `n` parses
/// back to the heartbeat with that very nonce.
pub proof fn lemma_heartbeat_reply_parses_back(n: u64)
    ensures
        parse_message_spec(crate::commands::pong_cmd(n as nat)) == Ok::<_, ()>(
            ParsedMessageV::Ping(n),
        ),
{
    reveal_strlit("~h~");
    let s = crate::commands::pong_cmd(n as nat);
    crate::decimal::lemma_dec_rep_digits(n as nat);
    crate::decimal::lemma_dec_round_trip(n as nat);
    assert(s.len() >= 4);
    assert(s[0] == '~' && s[1] == 'h' && s[2] == '~');
    assert(s.subrange(3, s.len() as int) =~= crate::decimal::dec_rep(n as nat));
}

impl ParsedTradingViewMessage {
    /// The kind of this message.
    pub fn kind(&self) -> (r: MessageKind)
        ensures
            r == kind_of(self@),
    {
        match self {
            ParsedTradingViewMessage::Ping(_) => MessageKind::Ping,
            ParsedTradingViewMessage::ServerHello(_) => MessageKind::ServerHello,
            ParsedTradingViewMessage::QuoteSeriesData(_) => MessageKind::QuoteSeriesData,
            ParsedTradingViewMessage::DataUpdate(_) => MessageKind::DataUpdate,
            ParsedTradingViewMessage::QuoteCompleted(_) => MessageKind::QuoteCompleted,
            ParsedTradingViewMessage::TimescaleUpdate(_) => MessageKind::TimescaleUpdate,
            ParsedTradingViewMessage::SeriesLoading(_) => MessageKind::SeriesLoading,
            ParsedTradingViewMessage::SymbolResolved(_) => MessageKind::SymbolResolved,
            ParsedTradingViewMessage::SeriesCompleted(_) => MessageKind::SeriesCompleted,
            ParsedTradingViewMessage::StudyLoading(_) => MessageKind::StudyLoading,
            ParsedTradingViewMessage::StudyError(_) => MessageKind::StudyError,
            ParsedTradingViewMessage::StudyCompleted(_) => MessageKind::StudyCompleted,
            ParsedTradingViewMessage::TickmarkUpdate(_) => MessageKind::TickmarkUpdate,
            ParsedTradingViewMessage::CriticalError(_) => MessageKind::CriticalError,
            ParsedTradingViewMessage::ProtocolError(_) => MessageKind::ProtocolError,
            ParsedTradingViewMessage::NotifyUser(_) => MessageKind::NotifyUser,
        }
    }

    /// Parses one payload.
    pub fn from_string(value: &str) -> (r: Result<Self, ParseError>)
        ensures
            match r {
                Ok(m) => parse_message_spec(value@) == Ok::<_, ()>(m@),
                Err(_) => parse_message_spec(value@) is Err,
            },
    {
        let len = value.unicode_len();
        if len >= 3 {
            let c0 = value.get_char(0);
            let c1 = value.get_char(1);
            let c2 = value.get_char(2);
            if c0 == '~' && c1 == 'h' && c2 == '~' {
                let rest = value.substring_char(3, len);
                return match parse_u64_decimal(rest) {
                    Some(nonce) => Ok(ParsedTradingViewMessage::Ping(nonce)),
                    None => Err(ParseError::new("failed to parse nonce")),
                };
            }
        }
        let decoded = match parse_json(value) {
            Some(v) => v,
            None => {
                return Err(ParseError::new("payload is not valid JSON"));
            },
        };
        let entries = match &decoded {
            JsonValue::Obj(entries) => entries,
            _ => {
                return Err(ParseError::new("payload is not a JSON object"));
            },
        };
        if object_contains_key(entries, "javastudies") {
            return Ok(ParsedTradingViewMessage::ServerHello(ServerHelloMessage {}));
        }
        let tag = match object_get(entries, "m") {
            Some(mv) => value_to_string(mv)?,
            None => {
                return Err(ParseError::new("failed to get message type"));
            },
        };
        if tag == String::from_str("qsd") {
            Ok(ParsedTradingViewMessage::QuoteSeriesData(QuoteSeriesDataMessage::from_object(entries)?))
        } else if tag == String::from_str("du") {
            Ok(ParsedTradingViewMessage::DataUpdate(DataUpdateMessage::from_object(entries)?))
        } else if tag == String::from_str("quote_completed") {
            Ok(ParsedTradingViewMessage::QuoteCompleted(QuoteCompletedMessage::from_object(entries)?))
        } else if tag == String::from_str("timescale_update") {
            Ok(ParsedTradingViewMessage::TimescaleUpdate(TimescaleUpdatedMessage::from_object(entries)?))
        } else if tag == String::from_str("series_loading") {
            Ok(ParsedTradingViewMessage::SeriesLoading(SeriesLoadingMessage::from_object(entries)?))
        } else if tag == String::from_str("symbol_resolved") {
            Ok(ParsedTradingViewMessage::SymbolResolved(SymbolResolvedMessage::from_object(entries)?))
        } else if tag == String::from_str("series_completed") {
            Ok(ParsedTradingViewMessage::SeriesCompleted(SeriesCompletedMessage::from_object(entries)?))
        } else if tag == String::from_str("study_loading") {
            Ok(ParsedTradingViewMessage::StudyLoading(StudyLoadingMessage::from_object(entries)?))
        } else if tag == String::from_str("study_error") {
            Ok(ParsedTradingViewMessage::StudyError(StudyErrorMessage::from_object(entries)?))
        } else if tag == String::from_str("study_completed") {
            Ok(ParsedTradingViewMessage::StudyCompleted(StudyCompletedMessage::from_object(entries)?))
        } else if tag == String::from_str("tickmark_update") {
            Ok(ParsedTradingViewMessage::TickmarkUpdate(TickmarkUpdateMessage::from_object(entries)?))
        } else if tag == String::from_str("critical_error") {
            Ok(ParsedTradingViewMessage::CriticalError(CriticalErrorMessage::from_object(entries)?))
        } else if tag == String::from_str("protcol_error") {
            Ok(ParsedTradingViewMessage::ProtocolError(ProtocolErrorMessage::from_object(entries)?))
        } else if tag == String::from_str("notify_user") {
            Ok(ParsedTradingViewMessage::NotifyUser(NotifyUserMessage::from_object(entries)?))
        } else {
            Err(ParseError::new("unknown message type"))
        }
    }
}

} // verus!
