//! The outbound command surface.
//!
//! Every command is a JSON text of the shape `{"m":<name>,"p":[...]}`,
//! except the bare heartbeat reply.  Each builder's contract gives the
//! exact text; the session ids are client-generated, zero-padded and
//! indexed per configuration.

use vstd::prelude::*;

use crate::decimal::dec_rep;

verus! {

/// The rendering of `n` left-padded with zeros to twelve places.
pub open spec fn zero_padded_12(n: nat) -> Seq<char> {
    if dec_rep(n).len() >= 12 {
        dec_rep(n)
    } else {
        Seq::new((12 - dec_rep(n).len()) as nat, |i: int| '0') + dec_rep(n)
    }
}

/// Renders `n` left-padded with zeros to twelve places.
pub fn format_zero_padded_12(n: u64) -> (r: String)
    ensures
        r@ == zero_padded_12(n as nat),
{
    let digits = crate::decimal::u64_to_decimal_string(n);
    let len = digits.as_str().unicode_len();
    if len >= 12 {
        proof {
            assert(digits@ =~= zero_padded_12(n as nat));
        }
        return digits;
    }
    let mut r = String::new();
    let mut i: usize = 0;
    let pad = 12 - len;
    while i < pad
        invariant
            i <= pad,
            pad == 12 - len,
            len == dec_rep(n as nat).len(),
            len < 12,
            r@ =~= Seq::new(i as nat, |k: int| '0'),
        decreases pad - i,
    {
        r.append("0");
        proof {
            reveal_strlit("0");
            assert(r@ =~= Seq::new((i + 1) as nat, |k: int| '0'));
        }
        i = i + 1;
    }
    r.append(digits.as_str());
    proof {
        assert(r@ =~= zero_padded_12(n as nat));
    }
    r
}

/// The chart session id for the one-based index `n`.
pub open spec fn chart_session_id_spec(n: nat) -> Seq<char> {
    "cs_"@ + zero_padded_12(n)
}

/// Builds the chart session id for the one-based index `n`.
pub fn chart_session_id(n: u64) -> (r: String)
    ensures
        r@ == chart_session_id_spec(n as nat),
{
    let mut r = String::new();
    r.append("cs_");
    let padded = format_zero_padded_12(n);
    r.append(padded.as_str());
    proof {
        assert(r@ =~= chart_session_id_spec(n as nat));
    }
    r
}

/// The quote session id for the one-based index `n`.
pub open spec fn quote_session_id_spec(n: nat) -> Seq<char> {
    "qs_"@ + zero_padded_12(n)
}

/// Builds the quote session id for the one-based index `n`.
pub fn quote_session_id(n: u64) -> (r: String)
    ensures
        r@ == quote_session_id_spec(n as nat),
{
    let mut r = String::new();
    r.append("qs_");
    let padded = format_zero_padded_12(n);
    r.append(padded.as_str());
    proof {
        assert(r@ =~= quote_session_id_spec(n as nat));
    }
    r
}

/// The study id for the zero-based indicator index `j`; the first
/// configured indicator takes `st2`, the baseline study having taken
/// `st1`.
pub open spec fn study_id_spec(j: nat) -> Seq<char> {
    "st"@ + dec_rep(j + 2)
}

/// Builds the study id for the zero-based indicator index `j`.
pub fn study_id(j: u64) -> (r: String)
    requires
        j < u64::MAX - 1,
    ensures
        r@ == study_id_spec(j as nat),
{
    let mut r = String::new();
    r.append("st");
    let digits = crate::decimal::u64_to_decimal_string(j + 2);
    r.append(digits.as_str());
    proof {
        assert(r@ =~= study_id_spec(j as nat));
    }
    r
}

/// The heartbeat reply for nonce `n`: the heartbeat prefix and the
/// decimal nonce, not JSON.
pub open spec fn pong_cmd(n: nat) -> Seq<char> {
    "~h~"@ + dec_rep(n)
}

/// Builds the heartbeat reply for nonce `n`.
pub fn pong(nonce: u64) -> (r: String)
    ensures
        r@ == pong_cmd(nonce as nat),
{
    let mut r = String::new();
    r.append("~h~");
    let digits = crate::decimal::u64_to_decimal_string(nonce);
    r.append(digits.as_str());
    proof {
        assert(r@ =~= pong_cmd(nonce as nat));
    }
    r
}

/// The set-auth-token command.
pub open spec fn set_auth_token_cmd(auth_token: Seq<char>) -> Seq<char> {
    "{\"m\":\"set_auth_token\",\"p\":[\""@ + auth_token + "\"]}"@
}

/// Builds the set-auth-token command.
pub fn set_auth_token(auth_token: &str) -> (r: String)
    ensures
        r@ == set_auth_token_cmd(auth_token@),
{
    let mut r = String::new();
    r.append("{\"m\":\"set_auth_token\",\"p\":[\"");
    r.append(auth_token);
    r.append("\"]}");
    proof {
        assert(r@ =~= set_auth_token_cmd(auth_token@));
    }
    r
}

/// The set-locale command.
pub open spec fn set_locale_cmd(language_code: Seq<char>, region_code: Seq<char>) -> Seq<char> {
    "{\"m\":\"set_locale\",\"p\":[\""@ + language_code + "\", \""@ + region_code + "\"]}"@
}

/// Builds the set-locale command.
pub fn set_locale(language_code: &str, region_code: &str) -> (r: String)
    ensures
        r@ == set_locale_cmd(language_code@, region_code@),
{
    let mut r = String::new();
    r.append("{\"m\":\"set_locale\",\"p\":[\"");
    r.append(language_code);
    r.append("\", \"");
    r.append(region_code);
    r.append("\"]}");
    proof {
        assert(r@ =~= set_locale_cmd(language_code@, region_code@));
    }
    r
}

/// The chart-session creation command.
pub open spec fn chart_create_session_cmd(chart_session_id: Seq<char>) -> Seq<char> {
    "{\"m\":\"chart_create_session\",\"p\":[\""@ + chart_session_id + "\",\"\"]}"@
}

/// Builds the chart-session creation command.
pub fn chart_create_session(chart_session_id: &str) -> (r: String)
    ensures
        r@ == chart_create_session_cmd(chart_session_id@),
{
    let mut r = String::new();
    r.append("{\"m\":\"chart_create_session\",\"p\":[\"");
    r.append(chart_session_id);
    r.append("\",\"\"]}");
    proof {
        assert(r@ =~= chart_create_session_cmd(chart_session_id@));
    }
    r
}

/// The timezone switch command.
pub open spec fn switch_timezone_cmd(chart_session_id: Seq<char>, timezone: Seq<char>) -> Seq<
    char,
> {
    "{\"m\":\"switch_timezone\",\"p\":[\""@ + chart_session_id + "\",\""@ + timezone + "\"]}"@
}

/// Builds the timezone switch command.
pub fn switch_timezone(chart_session_id: &str, timezone: &str) -> (r: String)
    ensures
        r@ == switch_timezone_cmd(chart_session_id@, timezone@),
{
    let mut r = String::new();
    r.append("{\"m\":\"switch_timezone\",\"p\":[\"");
    r.append(chart_session_id);
    r.append("\",\"");
    r.append(timezone);
    r.append("\"]}");
    proof {
        assert(r@ =~= switch_timezone_cmd(chart_session_id@, timezone@));
    }
    r
}

/// The quote-session creation command.
pub open spec fn quote_create_session_cmd(quote_session_id: Seq<char>) -> Seq<char> {
    "{\"m\":\"quote_create_session\",\"p\":[\""@ + quote_session_id + "\",\"\"]}"@
}

/// Builds the quote-session creation command.
pub fn quote_create_session(quote_session_id: &str) -> (r: String)
    ensures
        r@ == quote_create_session_cmd(quote_session_id@),
{
    let mut r = String::new();
    r.append("{\"m\":\"quote_create_session\",\"p\":[\"");
    r.append(quote_session_id);
    r.append("\",\"\"]}");
    proof {
        assert(r@ =~= quote_create_session_cmd(quote_session_id@));
    }
    r
}

/// The quote symbol subscription command.
pub open spec fn quote_add_symbols_cmd(quote_session_id: Seq<char>, symbol: Seq<char>) -> Seq<
    char,
> {
    "{\"m\":\"quote_add_symbols\",\"p\":[\""@ + quote_session_id + "\",\""@ + symbol + "\"]}"@
}

/// Builds the quote symbol subscription command.
pub fn quote_add_symbols(quote_session_id: &str, symbol: &str) -> (r: String)
    ensures
        r@ == quote_add_symbols_cmd(quote_session_id@, symbol@),
{
    let mut r = String::new();
    r.append("{\"m\":\"quote_add_symbols\",\"p\":[\"");
    r.append(quote_session_id);
    r.append("\",\"");
    r.append(symbol);
    r.append("\"]}");
    proof {
        assert(r@ =~= quote_add_symbols_cmd(quote_session_id@, symbol@));
    }
    r
}

/// The symbol resolution command.
pub open spec fn resolve_symbol_cmd(
    chart_session_id: Seq<char>,
    symbol_id: Seq<char>,
    symbol: Seq<char>,
) -> Seq<char> {
    "{\"m\":\"resolve_symbol\",\"p\":[\""@ + chart_session_id + "\",\""@ + symbol_id + "\", \""@
        + symbol + "\"]}"@
}

/// Builds the symbol resolution command.
pub fn resolve_symbol(chart_session_id: &str, symbol_id: &str, symbol: &str) -> (r: String)
    ensures
        r@ == resolve_symbol_cmd(chart_session_id@, symbol_id@, symbol@),
{
    let mut r = String::new();
    r.append("{\"m\":\"resolve_symbol\",\"p\":[\"");
    r.append(chart_session_id);
    r.append("\",\"");
    r.append(symbol_id);
    r.append("\", \"");
    r.append(symbol);
    r.append("\"]}");
    proof {
        assert(r@ =~= resolve_symbol_cmd(chart_session_id@, symbol_id@, symbol@));
    }
    r
}

/// The series creation command; the range is a plain number in the
/// parameter list.
pub open spec fn create_series_cmd(
    chart_session_id: Seq<char>,
    series_id: Seq<char>,
    unk1: Seq<char>,
    symbol_id: Seq<char>,
    timeframe: Seq<char>,
    range: nat,
) -> Seq<char> {
    "{\"m\":\"create_series\",\"p\":[\""@ + chart_session_id + "\",\""@ + series_id + "\",\""@
        + unk1 + "\",\""@ + symbol_id + "\",\""@ + timeframe + "\","@ + dec_rep(range)
        + ",\"\"]}"@
}

/// Builds the series creation command.
pub fn create_series(
    chart_session_id: &str,
    series_id: &str,
    unk1: &str,
    symbol_id: &str,
    timeframe: &str,
    range: u64,
) -> (r: String)
    ensures
        r@ == create_series_cmd(
            chart_session_id@,
            series_id@,
            unk1@,
            symbol_id@,
            timeframe@,
            range as nat,
        ),
{
    let mut r = String::new();
    r.append("{\"m\":\"create_series\",\"p\":[\"");
    r.append(chart_session_id);
    r.append("\",\"");
    r.append(series_id);
    r.append("\",\"");
    r.append(unk1);
    r.append("\",\"");
    r.append(symbol_id);
    r.append("\",\"");
    r.append(timeframe);
    r.append("\",");
    let digits = crate::decimal::u64_to_decimal_string(range);
    r.append(digits.as_str());
    r.append(",\"\"]}");
    proof {
        assert(r@ =~= create_series_cmd(
            chart_session_id@,
            series_id@,
            unk1@,
            symbol_id@,
            timeframe@,
            range as nat,
        ));
    }
    r
}

/// The request for more tick marks.
pub open spec fn request_more_tickmarks_cmd(
    chart_session_id: Seq<char>,
    series_id: Seq<char>,
    range: nat,
) -> Seq<char> {
    "{\"m\":\"request_more_tickmarks\",\"p\":[\""@ + chart_session_id + "\",\""@ + series_id
        + "\","@ + dec_rep(range) + "]}"@
}

/// Builds the request for more tick marks.
pub fn request_more_tickmarks(chart_session_id: &str, series_id: &str, range: u64) -> (r: String)
    ensures
        r@ == request_more_tickmarks_cmd(chart_session_id@, series_id@, range as nat),
{
    let mut r = String::new();
    r.append("{\"m\":\"request_more_tickmarks\",\"p\":[\"");
    r.append(chart_session_id);
    r.append("\",\"");
    r.append(series_id);
    r.append("\",");
    let digits = crate::decimal::u64_to_decimal_string(range);
    r.append(digits.as_str());
    r.append("]}");
    proof {
        assert(r@ =~= request_more_tickmarks_cmd(chart_session_id@, series_id@, range as nat));
    }
    r
}

/// The request for more series data.
pub open spec fn request_more_data_cmd(
    chart_session_id: Seq<char>,
    series_id: Seq<char>,
    amount: nat,
) -> Seq<char> {
    "{\"m\":\"request_more_data\",\"p\":[\""@ + chart_session_id + "\",\""@ + series_id + "\","@
        + dec_rep(amount) + "]}"@
}

/// Builds the request for more series data.
pub fn request_more_data(chart_session_id: &str, series_id: &str, amount: u64) -> (r: String)
    ensures
        r@ == request_more_data_cmd(chart_session_id@, series_id@, amount as nat),
{
    let mut r = String::new();
    r.append("{\"m\":\"request_more_data\",\"p\":[\"");
    r.append(chart_session_id);
    r.append("\",\"");
    r.append(series_id);
    r.append("\",");
    let digits = crate::decimal::u64_to_decimal_string(amount);
    r.append(digits.as_str());
    r.append("]}");
    proof {
        assert(r@ =~= request_more_data_cmd(chart_session_id@, series_id@, amount as nat));
    }
    r
}

/// The fast-symbol mode command.
pub open spec fn quote_fast_symbols_cmd(quote_session_id: Seq<char>, symbol: Seq<char>) -> Seq<
    char,
> {
    "{\"m\":\"quote_fast_symbols\",\"p\":[\""@ + quote_session_id + "\",\""@ + symbol + "\"]}"@
}

/// Builds the fast-symbol mode command.
pub fn quote_fast_symbols(quote_session_id: &str, symbol: &str) -> (r: String)
    ensures
        r@ == quote_fast_symbols_cmd(quote_session_id@, symbol@),
{
    let mut r = String::new();
    r.append("{\"m\":\"quote_fast_symbols\",\"p\":[\"");
    r.append(quote_session_id);
    r.append("\",\"");
    r.append(symbol);
    r.append("\"]}");
    proof {
        assert(r@ =~= quote_fast_symbols_cmd(quote_session_id@, symbol@));
    }
    r
}

/// The fixed field list that a quote session subscribes to.
pub open spec fn quote_fields_spec() -> Seq<char> {
    "\"base-currency-logoid\",\"ch\",\"chp\",\"currency-logoid\",\"currency_code\",\"currency_id\",\"base_currency_id\",\"current_session\",\"description\",\"exchange\",\"format\",\"fractional\",\"is_tradable\",\"language\",\"local_description\",\"listed_exchange\",\"logoid\",\"lp\",\"lp_time\",\"minmov\",\"minmove2\",\"original_name\",\"pricescale\",\"pro_name\",\"short_name\",\"type\",\"typespecs\",\"update_mode\",\"volume\",\"variable_tick_size\",\"value_unit_id\",\"unit_id\",\"measure\""@
}

/// The quote field subscription command, over the fixed field list.
pub open spec fn quote_set_fields_cmd(quote_session_id: Seq<char>) -> Seq<char> {
    "{\"m\":\"quote_set_fields\",\"p\":[\""@ + quote_session_id + "\","@ + quote_fields_spec()
        + "]}"@
}

/// Builds the quote field subscription command.
pub fn quote_set_fields(quote_session_id: &str) -> (r: String)
    ensures
        r@ == quote_set_fields_cmd(quote_session_id@),
{
    let mut r = String::new();
    r.append("{\"m\":\"quote_set_fields\",\"p\":[\"");
    r.append(quote_session_id);
    r.append("\",");
    r.append(
        "\"base-currency-logoid\",\"ch\",\"chp\",\"currency-logoid\",\"currency_code\",\"currency_id\",\"base_currency_id\",\"current_session\",\"description\",\"exchange\",\"format\",\"fractional\",\"is_tradable\",\"language\",\"local_description\",\"listed_exchange\",\"logoid\",\"lp\",\"lp_time\",\"minmov\",\"minmove2\",\"original_name\",\"pricescale\",\"pro_name\",\"short_name\",\"type\",\"typespecs\",\"update_mode\",\"volume\",\"variable_tick_size\",\"value_unit_id\",\"unit_id\",\"measure\"",
    );
    r.append("]}");
    proof {
        assert(r@ =~= quote_set_fields_cmd(quote_session_id@));
    }
    r
}

/// The study creation command; the study value is spliced in raw, as
/// it is itself JSON.
pub open spec fn create_study_cmd(
    chart_session_id: Seq<char>,
    study_id: Seq<char>,
    session_id: Seq<char>,
    series_id: Seq<char>,
    name: Seq<char>,
    value: Seq<char>,
) -> Seq<char> {
    "{\"m\":\"create_study\",\"p\":[\""@ + chart_session_id + "\",\""@ + study_id + "\",\""@
        + session_id + "\",\""@ + series_id + "\",\""@ + name + "\","@ + value + "]}"@
}

/// Builds the study creation command.
pub fn create_study(
    chart_session_id: &str,
    study_id: &str,
    session_id: &str,
    series_id: &str,
    name: &str,
    value: &str,
) -> (r: String)
    ensures
        r@ == create_study_cmd(
            chart_session_id@,
            study_id@,
            session_id@,
            series_id@,
            name@,
            value@,
        ),
{
    let mut r = String::new();
    r.append("{\"m\":\"create_study\",\"p\":[\"");
    r.append(chart_session_id);
    r.append("\",\"");
    r.append(study_id);
    r.append("\",\"");
    r.append(session_id);
    r.append("\",\"");
    r.append(series_id);
    r.append("\",\"");
    r.append(name);
    r.append("\",");
    r.append(value);
    r.append("]}");
    proof {
        assert(r@ =~= create_study_cmd(
            chart_session_id@,
            study_id@,
            session_id@,
            series_id@,
            name@,
            value@,
        ));
    }
    r
}

/// The ticker reference that the resolve and quote commands embed: a
/// JSON-shaped string whose quotes are pre-escaped, with the currency
/// id present only when the symbol uses one.
pub open spec fn build_symbol_spec(
    adjustment: Seq<char>,
    currency_id: Option<Seq<char>>,
    session: Seq<char>,
    symbol: Seq<char>,
) -> Seq<char> {
    match currency_id {
        Some(cid) => "={\\\"adjustment\\\":\\\""@ + adjustment + "\\\",\\\"currency-id\\\":\\\""@
            + cid + "\\\",\\\"session\\\":\\\""@ + session + "\\\",\\\"symbol\\\":\\\""@ + symbol
            + "\\\"}"@,
        None => "={\\\"adjustment\\\":\\\""@ + adjustment + "\\\",\\\"session\\\":\\\""@ + session
            + "\\\",\\\"symbol\\\":\\\""@ + symbol + "\\\"}"@,
    }
}

/// Ticker reference construction.
pub struct TradingViewSymbols;

impl TradingViewSymbols {
    /// Builds the ticker reference for one symbol.
    pub fn build_symbol(
        adjustment: &str,
        currency_id: Option<&str>,
        session: &str,
        symbol: &str,
    ) -> (r: String)
        ensures
            r@ == build_symbol_spec(
                adjustment@,
                match currency_id {
                    Some(cid) => Some(cid@),
                    None => None,
                },
                session@,
                symbol@,
            ),
    {
        let mut r = String::new();
        r.append("={\\\"adjustment\\\":\\\"");
        r.append(adjustment);
        match currency_id {
            Some(cid) => {
                r.append("\\\",\\\"currency-id\\\":\\\"");
                r.append(cid);
            },
            None => {},
        }
        r.append("\\\",\\\"session\\\":\\\"");
        r.append(session);
        r.append("\\\",\\\"symbol\\\":\\\"");
        r.append(symbol);
        r.append("\\\"}");
        proof {
            assert(r@ =~= build_symbol_spec(
                adjustment@,
                match currency_id {
                    Some(cid) => Some(cid@),
                    None => None::<Seq<char>>,
                },
                session@,
                symbol@,
            ));
        }
        r
    }
}

} // verus!
