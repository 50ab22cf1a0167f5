//! The typed protocol message model.
//!
//! Each inbound payload decodes to exactly one of the structs here (or
//! to a heartbeat).  The extraction rules per message kind are given as
//! spec functions over [`JsonVal`] trees and the executable extractors
//! are proved to follow them.

use vstd::prelude::*;

use crate::json::FloatBits;
use crate::json::JsonNumber;
use crate::json::JsonVal;
use crate::json::JsonValue;
use crate::json::ParseError;
use crate::json::jobj_of;
use crate::json::jseq_of;
use crate::json::lemma_jobj_of_index;
use crate::json::lemma_jseq_of_index;
use crate::json::obj_get;
use crate::json::object_get;
use crate::json::s_as_arr;
use crate::json::s_as_float_bits;
use crate::json::s_as_num;
use crate::json::s_as_obj;
use crate::json::s_as_text;
use crate::json::s_as_uint;
use crate::json::value_to_array;
use crate::json::value_to_bool;
use crate::json::value_to_float_bits;
use crate::json::value_to_number;
use crate::json::value_to_object;
use crate::json::value_to_string;
use crate::json::value_to_u64;

verus! {

/// The server's greeting; it carries no fields the client uses.
#[derive(Debug, Clone, PartialEq, Eq, Structural)]
pub struct ServerHelloMessage {}

/// A symbol was resolved for a chart session.
#[derive(Debug, Clone, PartialEq, Eq, Structural)]
pub struct SymbolResolvedMessage {}

/// A series started loading.
#[derive(Debug, Clone, PartialEq, Eq, Structural)]
pub struct SeriesLoadingMessage {}

/// A series finished loading.
#[derive(Debug, Clone, PartialEq, Eq, Structural)]
pub struct SeriesCompletedMessage {}

/// A study started loading.
#[derive(Debug, Clone, PartialEq, Eq, Structural)]
pub struct StudyLoadingMessage {}

/// A study finished loading.
#[derive(Debug, Clone, PartialEq, Eq, Structural)]
pub struct StudyCompletedMessage {}

/// A study failed on the server.
#[derive(Debug, Clone, PartialEq, Eq, Structural)]
pub struct StudyErrorMessage {}

/// New tick marks are available.
#[derive(Debug, Clone, PartialEq, Eq, Structural)]
pub struct TickmarkUpdateMessage {}

/// The server reported an unrecoverable session error.
#[derive(Debug, Clone, PartialEq, Eq, Structural)]
pub struct CriticalErrorMessage {}

/// The server rejected a command.
#[derive(Debug, Clone, PartialEq, Eq, Structural)]
pub struct ProtocolErrorMessage {}

/// A user-facing notice.
#[derive(Debug, Clone, PartialEq, Eq, Structural)]
pub struct NotifyUserMessage {}

/// A quote session finished its initial load of one symbol.
#[derive(Debug, Clone, PartialEq)]
pub struct QuoteCompletedMessage {
    pub quote_session_id: String,
    pub symbol: String,
}

/// The view of a [`QuoteCompletedMessage`].
pub struct QuoteCompletedV {
    pub quote_session_id: Seq<char>,
    pub symbol: Seq<char>,
}

impl View for QuoteCompletedMessage {
    type V = QuoteCompletedV;

    open spec fn view(&self) -> QuoteCompletedV {
        QuoteCompletedV { quote_session_id: self.quote_session_id@, symbol: self.symbol@ }
    }
}

/// One sparse quote update.  Every field is optional because the server
/// only sends what changed; a floating-point field carries its bit
/// pattern, and a field the server sends in varying numeric
/// representations keeps the representation it arrived in.
#[derive(Debug, Clone, PartialEq)]
pub struct QuoteSeriesDataUpdate {
    pub symbol: String,
    pub volume: Option<JsonNumber>,
    pub ch: Option<FloatBits>,
    pub chp: Option<FloatBits>,
    pub rch: Option<FloatBits>,
    pub rchp: Option<FloatBits>,
    pub rtc: Option<FloatBits>,
    pub rtc_time: Option<u64>,
    pub lp: Option<FloatBits>,
    pub lp_time: Option<u64>,
    pub ask: Option<FloatBits>,
    pub ask_size: Option<JsonNumber>,
    pub bid: Option<FloatBits>,
    pub bid_size: Option<JsonNumber>,
    pub trade_loaded: Option<bool>,
}

/// The view of a [`QuoteSeriesDataUpdate`].
pub struct QuoteSeriesDataUpdateV {
    pub symbol: Seq<char>,
    pub volume: Option<JsonNumber>,
    pub ch: Option<FloatBits>,
    pub chp: Option<FloatBits>,
    pub rch: Option<FloatBits>,
    pub rchp: Option<FloatBits>,
    pub rtc: Option<FloatBits>,
    pub rtc_time: Option<u64>,
    pub lp: Option<FloatBits>,
    pub lp_time: Option<u64>,
    pub ask: Option<FloatBits>,
    pub ask_size: Option<JsonNumber>,
    pub bid: Option<FloatBits>,
    pub bid_size: Option<JsonNumber>,
    pub trade_loaded: Option<bool>,
}

impl View for QuoteSeriesDataUpdate {
    type V = QuoteSeriesDataUpdateV;

    open spec fn view(&self) -> QuoteSeriesDataUpdateV {
        QuoteSeriesDataUpdateV {
            symbol: self.symbol@,
            volume: self.volume,
            ch: self.ch,
            chp: self.chp,
            rch: self.rch,
            rchp: self.rchp,
            rtc: self.rtc,
            rtc_time: self.rtc_time,
            lp: self.lp,
            lp_time: self.lp_time,
            ask: self.ask,
            ask_size: self.ask_size,
            bid: self.bid,
            bid_size: self.bid_size,
            trade_loaded: self.trade_loaded,
        }
    }
}

/// A quote-session data push.
#[derive(Debug, Clone, PartialEq)]
pub struct QuoteSeriesDataMessage {
    pub quote_session_id: String,
    pub quote_update: QuoteSeriesDataUpdate,
}

/// The view of a [`QuoteSeriesDataMessage`].
pub struct QuoteSeriesDataV {
    pub quote_session_id: Seq<char>,
    pub quote_update: QuoteSeriesDataUpdateV,
}

impl View for QuoteSeriesDataMessage {
    type V = QuoteSeriesDataV;

    open spec fn view(&self) -> QuoteSeriesDataV {
        QuoteSeriesDataV { quote_session_id: self.quote_session_id@, quote_update: self.quote_update@ }
    }
}

/// One candle inside a data update, every numeric field in its native
/// representation.
#[derive(Debug, Clone, Copy, PartialEq, Eq, Structural)]
pub struct SeriesUpdate {
    pub index: JsonNumber,
    pub timestamp: JsonNumber,
    pub open: JsonNumber,
    pub high: JsonNumber,
    pub low: JsonNumber,
    pub close: JsonNumber,
    pub volume: JsonNumber,
}

/// One study output row: the candle index and the indicator's ordered
/// output values, opaque to this library.
#[derive(Debug, Clone, PartialEq)]
pub struct StudyUpdate {
    pub index: JsonNumber,
    pub values: Vec<JsonNumber>,
}

/// The view of a [`StudyUpdate`].
pub struct StudyUpdateV {
    pub index: JsonNumber,
    pub values: Seq<JsonNumber>,
}

impl View for StudyUpdate {
    type V = StudyUpdateV;

    open spec fn view(&self) -> StudyUpdateV {
        StudyUpdateV { index: self.index, values: self.values@ }
    }
}

/// A data update for one chart session, carrying either candle updates
/// or study updates, selected by the subscription key.
#[derive(Debug, Clone, PartialEq)]
pub struct DataUpdateMessage {
    pub chart_session_id: String,
    pub update_key: String,
    pub series_updates: Option<Vec<SeriesUpdate>>,
    pub study_updates: Option<Vec<StudyUpdate>>,
}

/// The view of a [`DataUpdateMessage`].
pub struct DataUpdateV {
    pub chart_session_id: Seq<char>,
    pub update_key: Seq<char>,
    pub series_updates: Option<Seq<SeriesUpdate>>,
    pub study_updates: Option<Seq<StudyUpdateV>>,
}

impl View for DataUpdateMessage {
    type V = DataUpdateV;

    open spec fn view(&self) -> DataUpdateV {
        DataUpdateV {
            chart_session_id: self.chart_session_id@,
            update_key: self.update_key@,
            series_updates: match self.series_updates {
                Some(v) => Some(v@),
                None => None,
            },
            study_updates: match self.study_updates {
                Some(v) => Some(Seq::new(v@.len(), |i: int| v@[i]@)),
                None => None,
            },
        }
    }
}

/// One candle of a timescale update.  The index is an integer; prices
/// are floating-point bit patterns; the timestamp and the volume keep
/// the representation they arrived in.
#[derive(Debug, Clone, Copy, PartialEq, Eq, Structural)]
pub struct TimescaleUpdate {
    pub index: u64,
    pub timestamp: JsonNumber,
    pub open: FloatBits,
    pub high: FloatBits,
    pub low: FloatBits,
    pub close: FloatBits,
    pub volume: JsonNumber,
}

/// The initial candle history for one chart session.  A payload whose
/// update object is empty carries nothing of interest and maps to
/// `None` fields.
#[derive(Debug, Clone, PartialEq)]
pub struct TimescaleUpdatedMessage {
    pub chart_session_id: String,
    pub update_key: Option<String>,
    pub updates: Option<Vec<TimescaleUpdate>>,
}

/// The view of a [`TimescaleUpdatedMessage`].
pub struct TimescaleUpdatedV {
    pub chart_session_id: Seq<char>,
    pub update_key: Option<Seq<char>>,
    pub updates: Option<Seq<TimescaleUpdate>>,
}

impl View for TimescaleUpdatedMessage {
    type V = TimescaleUpdatedV;

    open spec fn view(&self) -> TimescaleUpdatedV {
        TimescaleUpdatedV {
            chart_session_id: self.chart_session_id@,
            update_key: match self.update_key {
                Some(ref s) => Some(s@),
                None => None,
            },
            updates: match self.updates {
                Some(ref v) => Some(v@),
                None => None,
            },
        }
    }
}

/// The number carried by `jv`, or an extraction failure.
pub open spec fn num_of(jv: JsonVal) -> Result<JsonNumber, ()> {
    match s_as_num(jv) {
        Some(n) => Ok(n),
        None => Err(()),
    }
}

/// Whether every element extraction succeeded.
pub open spec fn results_all_ok<T>(s: Seq<Result<T, ()>>) -> bool {
    forall|i: int| 0 <= i < s.len() ==> s[i] is Ok
}

/// The extracted values, element by element.
pub open spec fn results_values<T>(s: Seq<Result<T, ()>>) -> Seq<T> {
    Seq::new(s.len(), |i: int| s[i]->Ok_0)
}

/// The `"p"` parameter array of a message object.
pub open spec fn sp_msg_p(entries: Seq<(Seq<char>, JsonVal)>) -> Result<Seq<JsonVal>, ()> {
    match obj_get(entries, "p"@) {
        Some(pv) => match s_as_arr(pv) {
            Some(p) => Ok(p),
            None => Err(()),
        },
        None => Err(()),
    }
}

/// Borrows the `"p"` parameter array of a message object.
fn message_p<'a>(entries: &'a Vec<(String, JsonValue)>) -> (r: Result<
    &'a Vec<JsonValue>,
    ParseError,
>)
    ensures
        match r {
            Ok(items) => sp_msg_p(jobj_of(entries@)) == Ok::<_, ()>(jseq_of(items@)),
            Err(_) => sp_msg_p(jobj_of(entries@)) is Err,
        },
{
    match object_get(entries, "p") {
        Some(pv) => value_to_array(pv),
        None => Err(ParseError::new("failed to get p")),
    }
}

/// An optional floating-point field of a quote record: an absent key
/// or an explicit JSON null maps to `None`, a present floating value
/// maps to its bits, any other shape is an error.
pub open spec fn sp_opt_float(entries: Seq<(Seq<char>, JsonVal)>, key: Seq<char>) -> Result<
    Option<FloatBits>,
    (),
> {
    match obj_get(entries, key) {
        None => Ok(None),
        Some(jv) => if jv == JsonVal::Null {
            Ok(None)
        } else {
            match s_as_float_bits(jv) {
                Some(bits) => Ok(Some(FloatBits { bits })),
                None => Err(()),
            }
        },
    }
}

fn opt_field_float(entries: &Vec<(String, JsonValue)>, key: &str) -> (r: Result<
    Option<FloatBits>,
    ParseError,
>)
    ensures
        match r {
            Ok(o) => sp_opt_float(jobj_of(entries@), key@) == Ok::<_, ()>(o),
            Err(_) => sp_opt_float(jobj_of(entries@), key@) is Err,
        },
{
    match object_get(entries, key) {
        None => Ok(None),
        Some(jv) => match jv {
            JsonValue::Null => Ok(None),
            _ => match value_to_float_bits(jv) {
                Ok(bits) => Ok(Some(FloatBits { bits })),
                Err(e) => Err(e),
            },
        },
    }
}

/// An optional numeric field kept in its native representation; an
/// absent key or an explicit JSON null maps to `None`.
pub open spec fn sp_opt_num(entries: Seq<(Seq<char>, JsonVal)>, key: Seq<char>) -> Result<
    Option<JsonNumber>,
    (),
> {
    match obj_get(entries, key) {
        None => Ok(None),
        Some(jv) => if jv == JsonVal::Null {
            Ok(None)
        } else {
            match s_as_num(jv) {
                Some(n) => Ok(Some(n)),
                None => Err(()),
            }
        },
    }
}

fn opt_field_num(entries: &Vec<(String, JsonValue)>, key: &str) -> (r: Result<
    Option<JsonNumber>,
    ParseError,
>)
    ensures
        match r {
            Ok(o) => sp_opt_num(jobj_of(entries@), key@) == Ok::<_, ()>(o),
            Err(_) => sp_opt_num(jobj_of(entries@), key@) is Err,
        },
{
    match object_get(entries, key) {
        None => Ok(None),
        Some(jv) => match jv {
            JsonValue::Null => Ok(None),
            _ => match value_to_number(jv) {
                Ok(n) => Ok(Some(n)),
                Err(e) => Err(e),
            },
        },
    }
}

/// An optional strict unsigned integer field; an absent key or an
/// explicit JSON null maps to `None`.
pub open spec fn sp_opt_u64(entries: Seq<(Seq<char>, JsonVal)>, key: Seq<char>) -> Result<
    Option<u64>,
    (),
> {
    match obj_get(entries, key) {
        None => Ok(None),
        Some(jv) => if jv == JsonVal::Null {
            Ok(None)
        } else {
            match s_as_uint(jv) {
                Some(u) => Ok(Some(u)),
                None => Err(()),
            }
        },
    }
}

fn opt_field_u64(entries: &Vec<(String, JsonValue)>, key: &str) -> (r: Result<
    Option<u64>,
    ParseError,
>)
    ensures
        match r {
            Ok(o) => sp_opt_u64(jobj_of(entries@), key@) == Ok::<_, ()>(o),
            Err(_) => sp_opt_u64(jobj_of(entries@), key@) is Err,
        },
{
    match object_get(entries, key) {
        None => Ok(None),
        Some(jv) => match jv {
            JsonValue::Null => Ok(None),
            _ => match value_to_u64(jv) {
                Ok(u) => Ok(Some(u)),
                Err(e) => Err(e),
            },
        },
    }
}

/// An optional boolean field; an absent key or an explicit JSON null
/// maps to `None`.
pub open spec fn sp_opt_bool(entries: Seq<(Seq<char>, JsonVal)>, key: Seq<char>) -> Result<
    Option<bool>,
    (),
> {
    match obj_get(entries, key) {
        None => Ok(None),
        Some(jv) => match jv {
            JsonVal::Bool(b) => Ok(Some(b)),
            JsonVal::Null => Ok(None),
            _ => Err(()),
        },
    }
}

fn opt_field_bool(entries: &Vec<(String, JsonValue)>, key: &str) -> (r: Result<
    Option<bool>,
    ParseError,
>)
    ensures
        match r {
            Ok(o) => sp_opt_bool(jobj_of(entries@), key@) == Ok::<_, ()>(o),
            Err(_) => sp_opt_bool(jobj_of(entries@), key@) is Err,
        },
{
    match object_get(entries, key) {
        None => Ok(None),
        Some(jv) => match jv {
            JsonValue::Null => Ok(None),
            _ => match value_to_bool(jv) {
                Ok(b) => Ok(Some(b)),
                Err(e) => Err(e),
            },
        },
    }
}

impl ServerHelloMessage {
    /// Extracts a server greeting; it uses no fields.
    pub fn from_object(entries: &Vec<(String, JsonValue)>) -> (r: Result<Self, ParseError>)
        ensures
            r == Ok::<_, ParseError>(ServerHelloMessage {}),
    {
        let _ = entries;
        Ok(ServerHelloMessage {})
    }
}

impl SymbolResolvedMessage {
    /// Extracts a symbol-resolved notice; it uses no fields.
    pub fn from_object(entries: &Vec<(String, JsonValue)>) -> (r: Result<Self, ParseError>)
        ensures
            r == Ok::<_, ParseError>(SymbolResolvedMessage {}),
    {
        let _ = entries;
        Ok(SymbolResolvedMessage {})
    }
}

impl SeriesLoadingMessage {
    /// Extracts a series-loading notice; it uses no fields.
    pub fn from_object(entries: &Vec<(String, JsonValue)>) -> (r: Result<Self, ParseError>)
        ensures
            r == Ok::<_, ParseError>(SeriesLoadingMessage {}),
    {
        let _ = entries;
        Ok(SeriesLoadingMessage {})
    }
}

impl SeriesCompletedMessage {
    /// Extracts a series-completed notice; it uses no fields.
    pub fn from_object(entries: &Vec<(String, JsonValue)>) -> (r: Result<Self, ParseError>)
        ensures
            r == Ok::<_, ParseError>(SeriesCompletedMessage {}),
    {
        let _ = entries;
        Ok(SeriesCompletedMessage {})
    }
}

impl StudyLoadingMessage {
    /// Extracts a study-loading notice; it uses no fields.
    pub fn from_object(entries: &Vec<(String, JsonValue)>) -> (r: Result<Self, ParseError>)
        ensures
            r == Ok::<_, ParseError>(StudyLoadingMessage {}),
    {
        let _ = entries;
        Ok(StudyLoadingMessage {})
    }
}

impl StudyCompletedMessage {
    /// Extracts a study-completed notice; it uses no fields.
    pub fn from_object(entries: &Vec<(String, JsonValue)>) -> (r: Result<Self, ParseError>)
        ensures
            r == Ok::<_, ParseError>(StudyCompletedMessage {}),
    {
        let _ = entries;
        Ok(StudyCompletedMessage {})
    }
}

impl StudyErrorMessage {
    /// Extracts a study-error notice; it uses no fields.
    pub fn from_object(entries: &Vec<(String, JsonValue)>) -> (r: Result<Self, ParseError>)
        ensures
            r == Ok::<_, ParseError>(StudyErrorMessage {}),
    {
        let _ = entries;
        Ok(StudyErrorMessage {})
    }
}

impl TickmarkUpdateMessage {
    /// Extracts a tickmark-update notice; it uses no fields.
    pub fn from_object(entries: &Vec<(String, JsonValue)>) -> (r: Result<Self, ParseError>)
        ensures
            r == Ok::<_, ParseError>(TickmarkUpdateMessage {}),
    {
        let _ = entries;
        Ok(TickmarkUpdateMessage {})
    }
}

impl CriticalErrorMessage {
    /// Extracts a critical-error notice; it uses no fields.
    pub fn from_object(entries: &Vec<(String, JsonValue)>) -> (r: Result<Self, ParseError>)
        ensures
            r == Ok::<_, ParseError>(CriticalErrorMessage {}),
    {
        let _ = entries;
        Ok(CriticalErrorMessage {})
    }
}

impl ProtocolErrorMessage {
    /// Extracts a protocol-error notice; it uses no fields.
    pub fn from_object(entries: &Vec<(String, JsonValue)>) -> (r: Result<Self, ParseError>)
        ensures
            r == Ok::<_, ParseError>(ProtocolErrorMessage {}),
    {
        let _ = entries;
        Ok(ProtocolErrorMessage {})
    }
}

impl NotifyUserMessage {
    /// Extracts a user notice; it uses no fields.
    pub fn from_object(entries: &Vec<(String, JsonValue)>) -> (r: Result<Self, ParseError>)
        ensures
            r == Ok::<_, ParseError>(NotifyUserMessage {}),
    {
        let _ = entries;
        Ok(NotifyUserMessage {})
    }
}

/// The extraction rule for a quote-completed payload: the first two
/// parameters are the quote session id and the symbol.
pub open spec fn sp_quote_completed(entries: Seq<(Seq<char>, JsonVal)>) -> Result<
    QuoteCompletedV,
    (),
> {
    match sp_msg_p(entries) {
        Err(e) => Err(e),
        Ok(p) => if p.len() < 2 {
            Err(())
        } else {
            match (s_as_text(p[0]), s_as_text(p[1])) {
                (Some(q), Some(sy)) => Ok(QuoteCompletedV { quote_session_id: q, symbol: sy }),
                _ => Err(()),
            }
        },
    }
}

impl QuoteCompletedMessage {
    /// Extracts a quote-completed message.
    pub fn from_object(entries: &Vec<(String, JsonValue)>) -> (r: Result<Self, ParseError>)
        ensures
            match r {
                Ok(m) => sp_quote_completed(jobj_of(entries@)) == Ok::<_, ()>(m@),
                Err(_) => sp_quote_completed(jobj_of(entries@)) is Err,
            },
    {
        let p = message_p(entries)?;
        proof {
            lemma_jseq_of_index(p@);
        }
        if p.len() < 2 {
            return Err(ParseError::new("missing parameters"));
        }
        let quote_session_id = value_to_string(&p[0])?;
        let symbol = value_to_string(&p[1])?;
        Ok(QuoteCompletedMessage { quote_session_id, symbol })
    }
}

/// The extraction rule for a quote data push: the quote session id,
/// the symbol under `"n"`, and the sparse field set under `"v"`.
pub open spec fn sp_quote_series_data(entries: Seq<(Seq<char>, JsonVal)>) -> Result<
    QuoteSeriesDataV,
    (),
> {
    match sp_msg_p(entries) {
        Err(e) => Err(e),
        Ok(p) => if p.len() < 2 {
            Err(())
        } else {
            match (s_as_text(p[0]), s_as_obj(p[1])) {
                (Some(qsid), Some(upd)) => match obj_get(upd, "n"@) {
                    None => Err(()),
                    Some(nv) => match s_as_text(nv) {
                        None => Err(()),
                        Some(symbol) => match obj_get(upd, "v"@) {
                            None => Err(()),
                            Some(vv) => match s_as_obj(vv) {
                                None => Err(()),
                                Some(v) => sp_quote_update_fields(qsid, symbol, v),
                            },
                        },
                    },
                },
                _ => Err(()),
            }
        },
    }
}

/// The sparse quote fields, each extracted independently; an explicit
/// JSON null is treated identically to an absent field.
pub open spec fn sp_quote_update_fields(
    qsid: Seq<char>,
    symbol: Seq<char>,
    v: Seq<(Seq<char>, JsonVal)>,
) -> Result<QuoteSeriesDataV, ()> {
    if sp_opt_num(v, "volume"@) is Err || sp_opt_float(v, "ch"@) is Err || sp_opt_float(v, "chp"@)
        is Err || sp_opt_float(v, "rch"@) is Err || sp_opt_float(v, "rchp"@) is Err
        || sp_opt_float(v, "lp"@) is Err || sp_opt_u64(v, "lp_time"@) is Err || sp_opt_float(
        v,
        "rtc"@,
    ) is Err || sp_opt_u64(v, "rtc_time"@) is Err || sp_opt_float(v, "ask"@) is Err || sp_opt_num(
        v,
        "ask_size"@,
    ) is Err || sp_opt_float(v, "bid"@) is Err || sp_opt_num(v, "bid_size"@) is Err || sp_opt_bool(
        v,
        "trade_loaded"@,
    ) is Err {
        Err(())
    } else {
        Ok(
            QuoteSeriesDataV {
                quote_session_id: qsid,
                quote_update: QuoteSeriesDataUpdateV {
                    symbol,
                    volume: sp_opt_num(v, "volume"@)->Ok_0,
                    ch: sp_opt_float(v, "ch"@)->Ok_0,
                    chp: sp_opt_float(v, "chp"@)->Ok_0,
                    rch: sp_opt_float(v, "rch"@)->Ok_0,
                    rchp: sp_opt_float(v, "rchp"@)->Ok_0,
                    rtc: sp_opt_float(v, "rtc"@)->Ok_0,
                    rtc_time: sp_opt_u64(v, "rtc_time"@)->Ok_0,
                    lp: sp_opt_float(v, "lp"@)->Ok_0,
                    lp_time: sp_opt_u64(v, "lp_time"@)->Ok_0,
                    ask: sp_opt_float(v, "ask"@)->Ok_0,
                    ask_size: sp_opt_num(v, "ask_size"@)->Ok_0,
                    bid: sp_opt_float(v, "bid"@)->Ok_0,
                    bid_size: sp_opt_num(v, "bid_size"@)->Ok_0,
                    trade_loaded: sp_opt_bool(v, "trade_loaded"@)->Ok_0,
                },
            },
        )
    }
}

impl QuoteSeriesDataMessage {
    /// Extracts a quote data push.
    pub fn from_object(entries: &Vec<(String, JsonValue)>) -> (r: Result<Self, ParseError>)
        ensures
            match r {
                Ok(m) => sp_quote_series_data(jobj_of(entries@)) == Ok::<_, ()>(m@),
                Err(_) => sp_quote_series_data(jobj_of(entries@)) is Err,
            },
    {
        let p = message_p(entries)?;
        proof {
            lemma_jseq_of_index(p@);
        }
        if p.len() < 2 {
            return Err(ParseError::new("missing parameters"));
        }
        let quote_session_id = value_to_string(&p[0])?;
        let upd = value_to_object(&p[1])?;
        let symbol = match object_get(upd, "n") {
            Some(nv) => value_to_string(nv)?,
            None => {
                return Err(ParseError::new("failed to get n"));
            },
        };
        let v = match object_get(upd, "v") {
            Some(vv) => value_to_object(vv)?,
            None => {
                return Err(ParseError::new("failed to get v"));
            },
        };
        let volume = opt_field_num(v, "volume")?;
        let ch = opt_field_float(v, "ch")?;
        let chp = opt_field_float(v, "chp")?;
        let rch = opt_field_float(v, "rch")?;
        let rchp = opt_field_float(v, "rchp")?;
        let lp = opt_field_float(v, "lp")?;
        let lp_time = opt_field_u64(v, "lp_time")?;
        let rtc = opt_field_float(v, "rtc")?;
        let rtc_time = opt_field_u64(v, "rtc_time")?;
        let ask = opt_field_float(v, "ask")?;
        let ask_size = opt_field_num(v, "ask_size")?;
        let bid = opt_field_float(v, "bid")?;
        let bid_size = opt_field_num(v, "bid_size")?;
        let trade_loaded = opt_field_bool(v, "trade_loaded")?;
        Ok(
            QuoteSeriesDataMessage {
                quote_session_id,
                quote_update: QuoteSeriesDataUpdate {
                    symbol,
                    volume,
                    ch,
                    chp,
                    rch,
                    rchp,
                    rtc,
                    rtc_time,
                    lp,
                    lp_time,
                    ask,
                    ask_size,
                    bid,
                    bid_size,
                    trade_loaded,
                },
            },
        )
    }
}

/// The extraction rule for one candle element of a data update: an
/// object with the index under `"i"` and at least six numbers under
/// `"v"` (timestamp, open, high, low, close, volume).
pub open spec fn sp_series_update(jv: JsonVal) -> Result<SeriesUpdate, ()> {
    match s_as_obj(jv) {
        None => Err(()),
        Some(obj) => match obj_get(obj, "i"@) {
            None => Err(()),
            Some(iv) => match s_as_num(iv) {
                None => Err(()),
                Some(index) => match obj_get(obj, "v"@) {
                    None => Err(()),
                    Some(vv) => match s_as_arr(vv) {
                        None => Err(()),
                        Some(v) => if v.len() < 6 {
                            Err(())
                        } else if num_of(v[0]) is Err || num_of(v[1]) is Err || num_of(v[2])
                            is Err || num_of(v[3]) is Err || num_of(v[4]) is Err || num_of(v[5])
                            is Err {
                            Err(())
                        } else {
                            Ok(
                                SeriesUpdate {
                                    index,
                                    timestamp: num_of(v[0])->Ok_0,
                                    open: num_of(v[1])->Ok_0,
                                    high: num_of(v[2])->Ok_0,
                                    low: num_of(v[3])->Ok_0,
                                    close: num_of(v[4])->Ok_0,
                                    volume: num_of(v[5])->Ok_0,
                                },
                            )
                        },
                    },
                },
            },
        },
    }
}

fn parse_series_update(e: &JsonValue) -> (r: Result<SeriesUpdate, ParseError>)
    ensures
        match r {
            Ok(u) => sp_series_update(e@) == Ok::<_, ()>(u),
            Err(_) => sp_series_update(e@) is Err,
        },
{
    let obj = value_to_object(e)?;
    let index = match object_get(obj, "i") {
        Some(iv) => value_to_number(iv)?,
        None => {
            return Err(ParseError::new("failed to get i"));
        },
    };
    let v = match object_get(obj, "v") {
        Some(vv) => value_to_array(vv)?,
        None => {
            return Err(ParseError::new("failed to get v"));
        },
    };
    proof {
        lemma_jseq_of_index(v@);
    }
    if v.len() < 6 {
        return Err(ParseError::new("missing candle values"));
    }
    let timestamp = value_to_number(&v[0])?;
    let open = value_to_number(&v[1])?;
    let high = value_to_number(&v[2])?;
    let low = value_to_number(&v[3])?;
    let close = value_to_number(&v[4])?;
    let volume = value_to_number(&v[5])?;
    Ok(SeriesUpdate { index, timestamp, open, high, low, close, volume })
}

/// The per-element extraction results of a candle list.
pub open spec fn sp_series_results(s: Seq<JsonVal>) -> Seq<Result<SeriesUpdate, ()>> {
    Seq::new(s.len(), |i: int| sp_series_update(s[i]))
}

/// The extraction rule for a whole candle list.
pub open spec fn sp_series_updates(s: Seq<JsonVal>) -> Result<Seq<SeriesUpdate>, ()> {
    let elems = sp_series_results(s);
    if results_all_ok(elems) {
        Ok(results_values(elems))
    } else {
        Err(())
    }
}

fn parse_series_updates(items: &Vec<JsonValue>) -> (r: Result<Vec<SeriesUpdate>, ParseError>)
    ensures
        match r {
            Ok(v) => sp_series_updates(jseq_of(items@)) == Ok::<_, ()>(v@),
            Err(_) => sp_series_updates(jseq_of(items@)) is Err,
        },
{
    proof {
        lemma_jseq_of_index(items@);
    }
    let ghost s = jseq_of(items@);
    let ghost elems = sp_series_results(s);
    let mut out: Vec<SeriesUpdate> = Vec::new();
    let n = items.len();
    let mut i: usize = 0;
    while i < n
        invariant
            i <= n,
            n == items@.len(),
            s == jseq_of(items@),
            s.len() == items@.len(),
            forall|j: int| 0 <= j < items@.len() ==> s[j] == crate::json::jval_of(#[trigger] items@[j]),
            elems == sp_series_results(s),
            out@.len() == i,
            forall|j: int|
                0 <= j < i ==> #[trigger] elems[j] is Ok && out@[j] == elems[j]->Ok_0,
        decreases n - i,
    {
        match parse_series_update(&items[i]) {
            Ok(u) => {
                out.push(u);
            },
            Err(e) => {
                proof {
                    assert(elems[i as int] is Err);
                    assert(!results_all_ok(elems));
                }
                return Err(e);
            },
        }
        i = i + 1;
    }
    proof {
        assert(results_all_ok(elems));
        assert(out@ =~= results_values(elems));
    }
    Ok(out)
}

/// The per-element number extraction results of a value list.
pub open spec fn sp_num_results(v: Seq<JsonVal>) -> Seq<Result<JsonNumber, ()>> {
    Seq::new(v.len(), |i: int| num_of(v[i]))
}

/// The extraction rule for one study output element: an object with
/// the index under `"i"` and a list of numbers under `"v"`.
pub open spec fn sp_study_update(jv: JsonVal) -> Result<StudyUpdateV, ()> {
    match s_as_obj(jv) {
        None => Err(()),
        Some(obj) => match obj_get(obj, "i"@) {
            None => Err(()),
            Some(iv) => match s_as_num(iv) {
                None => Err(()),
                Some(index) => match obj_get(obj, "v"@) {
                    None => Err(()),
                    Some(vv) => match s_as_arr(vv) {
                        None => Err(()),
                        Some(v) => {
                            let nums = sp_num_results(v);
                            if results_all_ok(nums) {
                                Ok(StudyUpdateV { index, values: results_values(nums) })
                            } else {
                                Err(())
                            }
                        },
                    },
                },
            },
        },
    }
}

#[verifier::loop_isolation(false)]
fn parse_study_update(e: &JsonValue) -> (r: Result<StudyUpdate, ParseError>)
    ensures
        match r {
            Ok(u) => sp_study_update(e@) == Ok::<_, ()>(u@),
            Err(_) => sp_study_update(e@) is Err,
        },
{
    let obj = value_to_object(e)?;
    let index = match object_get(obj, "i") {
        Some(iv) => value_to_number(iv)?,
        None => {
            return Err(ParseError::new("failed to get i"));
        },
    };
    let v = match object_get(obj, "v") {
        Some(vv) => value_to_array(vv)?,
        None => {
            return Err(ParseError::new("failed to get v"));
        },
    };
    proof {
        lemma_jseq_of_index(v@);
    }
    let ghost vs = jseq_of(v@);
    let ghost nums = sp_num_results(vs);
    let mut values: Vec<JsonNumber> = Vec::new();
    let n = v.len();
    let mut i: usize = 0;
    while i < n
        invariant
            i <= n,
            n == v@.len(),
            vs == jseq_of(v@),
            vs.len() == v@.len(),
            forall|j: int| 0 <= j < v@.len() ==> vs[j] == crate::json::jval_of(#[trigger] v@[j]),
            nums == sp_num_results(vs),
            values@.len() == i,
            forall|j: int| 0 <= j < i ==> #[trigger] nums[j] is Ok && values@[j] == nums[j]->Ok_0,
        decreases n - i,
    {
        match value_to_number(&v[i]) {
            Ok(u) => {
                values.push(u);
            },
            Err(err) => {
                proof {
                    assert(nums[i as int] is Err);
                    assert(!results_all_ok(nums));
                }
                return Err(err);
            },
        }
        i = i + 1;
    }
    proof {
        assert(results_all_ok(nums));
        assert(values@ =~= results_values(nums));
    }
    Ok(StudyUpdate { index, values })
}

/// The per-element extraction results of a study output list.
pub open spec fn sp_study_results(s: Seq<JsonVal>) -> Seq<Result<StudyUpdateV, ()>> {
    Seq::new(s.len(), |i: int| sp_study_update(s[i]))
}

/// The extraction rule for a whole study output list.
pub open spec fn sp_study_updates(s: Seq<JsonVal>) -> Result<Seq<StudyUpdateV>, ()> {
    let elems = sp_study_results(s);
    if results_all_ok(elems) {
        Ok(results_values(elems))
    } else {
        Err(())
    }
}

fn parse_study_updates(items: &Vec<JsonValue>) -> (r: Result<Vec<StudyUpdate>, ParseError>)
    ensures
        match r {
            Ok(v) => sp_study_updates(jseq_of(items@)) == Ok::<_, ()>(
                Seq::new(v@.len(), |i: int| v@[i]@),
            ),
            Err(_) => sp_study_updates(jseq_of(items@)) is Err,
        },
{
    proof {
        lemma_jseq_of_index(items@);
    }
    let ghost s = jseq_of(items@);
    let ghost elems = sp_study_results(s);
    let mut out: Vec<StudyUpdate> = Vec::new();
    let n = items.len();
    let mut i: usize = 0;
    while i < n
        invariant
            i <= n,
            n == items@.len(),
            s == jseq_of(items@),
            s.len() == items@.len(),
            forall|j: int| 0 <= j < items@.len() ==> s[j] == crate::json::jval_of(#[trigger] items@[j]),
            elems == sp_study_results(s),
            out@.len() == i,
            forall|j: int|
                0 <= j < i ==> #[trigger] elems[j] is Ok && out@[j]@ == elems[j]->Ok_0,
        decreases n - i,
    {
        match parse_study_update(&items[i]) {
            Ok(u) => {
                out.push(u);
            },
            Err(e) => {
                proof {
                    assert(elems[i as int] is Err);
                    assert(!results_all_ok(elems));
                }
                return Err(e);
            },
        }
        i = i + 1;
    }
    proof {
        assert(results_all_ok(elems));
        assert(Seq::new(out@.len(), |i: int| out@[i]@) =~= results_values(elems));
    }
    Ok(out)
}

/// The update object of a data update carries exactly one key; that
/// key selects the payload shape: the series key carries optional
/// candles, a study key carries required study rows, anything else is
/// a protocol violation.
pub open spec fn sp_data_update(entries: Seq<(Seq<char>, JsonVal)>) -> Result<DataUpdateV, ()> {
    match sp_msg_p(entries) {
        Err(e) => Err(e),
        Ok(p) => if p.len() < 2 {
            Err(())
        } else {
            match (s_as_text(p[0]), s_as_obj(p[1])) {
                (Some(cs), Some(upd)) => if upd.len() != 1 {
                    Err(())
                } else {
                    let key = upd[0].0;
                    if key == "sds_1"@ {
                        sp_data_update_series(cs, key, upd[0].1)
                    } else if key == "st1"@ || key == "st2"@ {
                        sp_data_update_study(cs, key, upd[0].1)
                    } else {
                        Err(())
                    }
                },
                _ => Err(()),
            }
        },
    }
}

/// The series payload of a data update: candles under `"s"` when that
/// key is present, otherwise a data update with no updates.
pub open spec fn sp_data_update_series(cs: Seq<char>, key: Seq<char>, uv: JsonVal) -> Result<
    DataUpdateV,
    (),
> {
    match s_as_obj(uv) {
        None => Err(()),
        Some(val) => match obj_get(val, "s"@) {
            None => Ok(
                DataUpdateV {
                    chart_session_id: cs,
                    update_key: key,
                    series_updates: None,
                    study_updates: None,
                },
            ),
            Some(sv) => match s_as_arr(sv) {
                None => Err(()),
                Some(s) => match sp_series_updates(s) {
                    Err(e) => Err(e),
                    Ok(updates) => Ok(
                        DataUpdateV {
                            chart_session_id: cs,
                            update_key: key,
                            series_updates: Some(updates),
                            study_updates: None,
                        },
                    ),
                },
            },
        },
    }
}

/// The study payload of a data update: study rows under `"st"`.
pub open spec fn sp_data_update_study(cs: Seq<char>, key: Seq<char>, uv: JsonVal) -> Result<
    DataUpdateV,
    (),
> {
    match s_as_obj(uv) {
        None => Err(()),
        Some(val) => match obj_get(val, "st"@) {
            None => Err(()),
            Some(sv) => match s_as_arr(sv) {
                None => Err(()),
                Some(st) => match sp_study_updates(st) {
                    Err(e) => Err(e),
                    Ok(updates) => Ok(
                        DataUpdateV {
                            chart_session_id: cs,
                            update_key: key,
                            series_updates: None,
                            study_updates: Some(updates),
                        },
                    ),
                },
            },
        },
    }
}

impl DataUpdateMessage {
    /// Extracts a data update.
    pub fn from_object(entries: &Vec<(String, JsonValue)>) -> (r: Result<Self, ParseError>)
        ensures
            match r {
                Ok(m) => sp_data_update(jobj_of(entries@)) == Ok::<_, ()>(m@),
                Err(_) => sp_data_update(jobj_of(entries@)) is Err,
            },
    {
        let p = message_p(entries)?;
        proof {
            lemma_jseq_of_index(p@);
        }
        if p.len() < 2 {
            return Err(ParseError::new("missing parameters"));
        }
        let chart_session_id = value_to_string(&p[0])?;
        let upd = value_to_object(&p[1])?;
        proof {
            lemma_jobj_of_index(upd@);
        }
        if upd.len() != 1 {
            return Err(ParseError::new("expected exactly one update key"));
        }
        let update_key = upd[0].0.clone();
        let series_key = String::from_str("sds_1");
        let study_key_1 = String::from_str("st1");
        let study_key_2 = String::from_str("st2");
        if upd[0].0 == series_key {
            let val = value_to_object(&upd[0].1)?;
            match object_get(val, "s") {
                None => Ok(
                    DataUpdateMessage {
                        chart_session_id,
                        update_key,
                        series_updates: None,
                        study_updates: None,
                    },
                ),
                Some(sv) => {
                    let s = value_to_array(sv)?;
                    let updates = parse_series_updates(s)?;
                    Ok(
                        DataUpdateMessage {
                            chart_session_id,
                            update_key,
                            series_updates: Some(updates),
                            study_updates: None,
                        },
                    )
                },
            }
        } else if upd[0].0 == study_key_1 || upd[0].0 == study_key_2 {
            let val = value_to_object(&upd[0].1)?;
            match object_get(val, "st") {
                None => Err(ParseError::new("failed to get st")),
                Some(sv) => {
                    let st = value_to_array(sv)?;
                    let updates = parse_study_updates(st)?;
                    Ok(
                        DataUpdateMessage {
                            chart_session_id,
                            update_key,
                            series_updates: None,
                            study_updates: Some(updates),
                        },
                    )
                },
            }
        } else {
            Err(ParseError::new("unknown update key"))
        }
    }
}

/// The extraction rule for one candle of a timescale update: the index
/// must be unsigned, prices floating-point, the timestamp and the
/// volume any number, kept as they arrived.
pub open spec fn sp_ts_update(jv: JsonVal) -> Result<TimescaleUpdate, ()> {
    match s_as_obj(jv) {
        None => Err(()),
        Some(obj) => match obj_get(obj, "i"@) {
            None => Err(()),
            Some(iv) => match s_as_uint(iv) {
                None => Err(()),
                Some(index) => match obj_get(obj, "v"@) {
                    None => Err(()),
                    Some(vv) => match s_as_arr(vv) {
                        None => Err(()),
                        Some(v) => if v.len() < 6 {
                            Err(())
                        } else if s_as_num(v[0]) is None || s_as_float_bits(v[1]) is None
                            || s_as_float_bits(v[2]) is None || s_as_float_bits(v[3]) is None
                            || s_as_float_bits(v[4]) is None || s_as_num(v[5]) is None {
                            Err(())
                        } else {
                            Ok(
                                TimescaleUpdate {
                                    index,
                                    timestamp: s_as_num(v[0])->Some_0,
                                    open: FloatBits { bits: s_as_float_bits(v[1])->Some_0 },
                                    high: FloatBits { bits: s_as_float_bits(v[2])->Some_0 },
                                    low: FloatBits { bits: s_as_float_bits(v[3])->Some_0 },
                                    close: FloatBits { bits: s_as_float_bits(v[4])->Some_0 },
                                    volume: s_as_num(v[5])->Some_0,
                                },
                            )
                        },
                    },
                },
            },
        },
    }
}

fn parse_ts_update(e: &JsonValue) -> (r: Result<TimescaleUpdate, ParseError>)
    ensures
        match r {
            Ok(u) => sp_ts_update(e@) == Ok::<_, ()>(u),
            Err(_) => sp_ts_update(e@) is Err,
        },
{
    let obj = value_to_object(e)?;
    let index = match object_get(obj, "i") {
        Some(iv) => value_to_u64(iv)?,
        None => {
            return Err(ParseError::new("failed to get i"));
        },
    };
    let v = match object_get(obj, "v") {
        Some(vv) => value_to_array(vv)?,
        None => {
            return Err(ParseError::new("failed to get v"));
        },
    };
    proof {
        lemma_jseq_of_index(v@);
    }
    if v.len() < 6 {
        return Err(ParseError::new("missing candle values"));
    }
    let timestamp = value_to_number(&v[0])?;
    let open = value_to_float_bits(&v[1])?;
    let high = value_to_float_bits(&v[2])?;
    let low = value_to_float_bits(&v[3])?;
    let close = value_to_float_bits(&v[4])?;
    let volume = value_to_number(&v[5])?;
    Ok(
        TimescaleUpdate {
            index,
            timestamp,
            open: FloatBits { bits: open },
            high: FloatBits { bits: high },
            low: FloatBits { bits: low },
            close: FloatBits { bits: close },
            volume,
        },
    )
}

/// The per-element extraction results of a timescale candle list.
pub open spec fn sp_ts_results(s: Seq<JsonVal>) -> Seq<Result<TimescaleUpdate, ()>> {
    Seq::new(s.len(), |i: int| sp_ts_update(s[i]))
}

/// The extraction rule for a whole timescale candle list.
pub open spec fn sp_ts_updates(s: Seq<JsonVal>) -> Result<Seq<TimescaleUpdate>, ()> {
    let elems = sp_ts_results(s);
    if results_all_ok(elems) {
        Ok(results_values(elems))
    } else {
        Err(())
    }
}

fn parse_ts_updates(items: &Vec<JsonValue>) -> (r: Result<Vec<TimescaleUpdate>, ParseError>)
    ensures
        match r {
            Ok(v) => sp_ts_updates(jseq_of(items@)) == Ok::<_, ()>(v@),
            Err(_) => sp_ts_updates(jseq_of(items@)) is Err,
        },
{
    proof {
        lemma_jseq_of_index(items@);
    }
    let ghost s = jseq_of(items@);
    let ghost elems = sp_ts_results(s);
    let mut out: Vec<TimescaleUpdate> = Vec::new();
    let n = items.len();
    let mut i: usize = 0;
    while i < n
        invariant
            i <= n,
            n == items@.len(),
            s == jseq_of(items@),
            s.len() == items@.len(),
            forall|j: int| 0 <= j < items@.len() ==> s[j] == crate::json::jval_of(#[trigger] items@[j]),
            elems == sp_ts_results(s),
            out@.len() == i,
            forall|j: int|
                0 <= j < i ==> #[trigger] elems[j] is Ok && out@[j] == elems[j]->Ok_0,
        decreases n - i,
    {
        match parse_ts_update(&items[i]) {
            Ok(u) => {
                out.push(u);
            },
            Err(err) => {
                proof {
                    assert(elems[i as int] is Err);
                    assert(!results_all_ok(elems));
                }
                return Err(err);
            },
        }
        i = i + 1;
    }
    proof {
        assert(results_all_ok(elems));
        assert(out@ =~= results_values(elems));
    }
    Ok(out)
}

/// The extraction rule for a timescale update: an empty update object
/// carries nothing of interest; a one-key object carries a candle list
/// under that key's `"s"`; more than one key is a protocol violation.
pub open spec fn sp_timescale_update(entries: Seq<(Seq<char>, JsonVal)>) -> Result<
    TimescaleUpdatedV,
    (),
> {
    match sp_msg_p(entries) {
        Err(e) => Err(e),
        Ok(p) => if p.len() < 2 {
            Err(())
        } else {
            match (s_as_text(p[0]), s_as_obj(p[1])) {
                (Some(cs), Some(upd)) => if upd.len() == 0 {
                    Ok(
                        TimescaleUpdatedV {
                            chart_session_id: cs,
                            update_key: None,
                            updates: None,
                        },
                    )
                } else if upd.len() == 1 {
                    match s_as_obj(upd[0].1) {
                        None => Err(()),
                        Some(val) => match obj_get(val, "s"@) {
                            None => Err(()),
                            Some(sv) => match s_as_arr(sv) {
                                None => Err(()),
                                Some(s) => match sp_ts_updates(s) {
                                    Err(e) => Err(e),
                                    Ok(ups) => Ok(
                                        TimescaleUpdatedV {
                                            chart_session_id: cs,
                                            update_key: Some(upd[0].0),
                                            updates: Some(ups),
                                        },
                                    ),
                                },
                            },
                        },
                    }
                } else {
                    Err(())
                },
                _ => Err(()),
            }
        },
    }
}

impl TimescaleUpdatedMessage {
    /// Extracts a timescale update.
    pub fn from_object(entries: &Vec<(String, JsonValue)>) -> (r: Result<Self, ParseError>)
        ensures
            match r {
                Ok(m) => sp_timescale_update(jobj_of(entries@)) == Ok::<_, ()>(m@),
                Err(_) => sp_timescale_update(jobj_of(entries@)) is Err,
            },
    {
        let p = message_p(entries)?;
        proof {
            lemma_jseq_of_index(p@);
        }
        if p.len() < 2 {
            return Err(ParseError::new("missing parameters"));
        }
        let chart_session_id = value_to_string(&p[0])?;
        let upd = value_to_object(&p[1])?;
        proof {
            lemma_jobj_of_index(upd@);
        }
        if upd.len() == 0 {
            Ok(TimescaleUpdatedMessage { chart_session_id, update_key: None, updates: None })
        } else if upd.len() == 1 {
            let update_key = upd[0].0.clone();
            let val = value_to_object(&upd[0].1)?;
            match object_get(val, "s") {
                None => Err(ParseError::new("failed to get s")),
                Some(sv) => {
                    let s = value_to_array(sv)?;
                    let updates = parse_ts_updates(s)?;
                    Ok(
                        TimescaleUpdatedMessage {
                            chart_session_id,
                            update_key: Some(update_key),
                            updates: Some(updates),
                        },
                    )
                },
            }
        } else {
            Err(ParseError::new("expected at most one update key"))
        }
    }
}

} // verus!
