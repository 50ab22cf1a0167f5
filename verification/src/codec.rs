//! The transport frame envelope.
//!
//! One text frame packs one or more payloads, each wrapped as
//! `~m~<decimal length>~m~<payload>`, where the length counts the
//! payload's characters.  Every text the protocol itself emits is
//! ASCII, where characters, code units and encoded bytes coincide; a
//! peer that counts one of the other units would only disagree on a
//! payload carrying non-ASCII text.  [`encode`] wraps one payload;
//! [`decode`] unpacks a whole frame or rejects it.

use vstd::prelude::*;

use crate::decimal::dec_rep;
use crate::decimal::dec_val;
use crate::decimal::is_digit;
use crate::decimal::parse_u64_decimal;
use crate::decimal::u64_to_decimal_string;
use crate::json::ParseError;
use crate::parsed_message::ParsedMessageV;
use crate::parsed_message::ParsedTradingViewMessage;

verus! {

/// One buffered inbound message: the decoded payload text and what it
/// parsed to.
#[derive(Debug, Clone, PartialEq)]
pub struct TradingViewMessageWrapper {
    pub payload: String,
    pub parsed_message: ParsedTradingViewMessage,
}

/// The view of a [`TradingViewMessageWrapper`].
pub struct MessageWrapperV {
    pub payload: Seq<char>,
    pub parsed_message: ParsedMessageV,
}

impl View for TradingViewMessageWrapper {
    type V = MessageWrapperV;

    open spec fn view(&self) -> MessageWrapperV {
        MessageWrapperV { payload: self.payload@, parsed_message: self.parsed_message@ }
    }
}

/// The wire form of one payload: the envelope marker, the decimal
/// character count, the marker again, then the payload itself.
pub open spec fn frame_encode(payload: Seq<char>) -> Seq<char> {
    "~m~"@ + dec_rep(payload.len()) + "~m~"@ + payload
}

/// Wraps one payload in the frame envelope.
pub fn encode(payload: &str) -> (r: String)
    ensures
        r@ == frame_encode(payload@),
{
    let len = payload.unicode_len();
    let len_text = u64_to_decimal_string(len as u64);
    let mut r = String::new();
    r.append("~m~");
    r.append(len_text.as_str());
    r.append("~m~");
    r.append(payload);
    proof {
        assert(r@ =~= frame_encode(payload@));
    }
    r
}

/// The first position at or after `i` that does not hold a digit.
pub open spec fn digit_run_end(s: Seq<char>, i: int) -> int
    decreases s.len() - i,
{
    if i < 0 || i >= s.len() {
        i
    } else if is_digit(s[i]) {
        digit_run_end(s, i + 1)
    } else {
        i
    }
}

/// `digit_run_end` stays within the bounds of `s`.
proof fn lemma_digit_run_end_bounds(s: Seq<char>, i: int)
    requires
        0 <= i <= s.len(),
    ensures
        i <= digit_run_end(s, i) <= s.len(),
    decreases s.len() - i,
{
    if i < s.len() && is_digit(s[i]) {
        lemma_digit_run_end_bounds(s, i + 1);
    }
}

/// `digit_run_end` is the unique boundary of the digit run at `i`.
proof fn lemma_digit_run_end_is(s: Seq<char>, i: int, j: int)
    requires
        0 <= i <= j <= s.len(),
        forall|k: int| i <= k < j ==> is_digit(#[trigger] s[k]),
        j == s.len() || !is_digit(s[j]),
    ensures
        digit_run_end(s, i) == j,
    decreases j - i,
{
    if i < j {
        lemma_digit_run_end_is(s, i + 1, j);
    }
}

/// The payloads packed in the frame `s` from position `pos` on, or
/// `None` when the envelope is malformed there.
pub open spec fn frame_decode_from(s: Seq<char>, pos: int) -> Option<Seq<Seq<char>>>
    decreases s.len() - pos,
    when 0 <= pos <= s.len()
    via frame_decode_from_dec
{
    if pos == s.len() {
        Some(Seq::empty())
    } else if !(pos + 3 <= s.len() && s[pos] == '~' && s[pos + 1] == 'm' && s[pos + 2] == '~') {
        None
    } else {
        let j = digit_run_end(s, pos + 3);
        if j == pos + 3 {
            None
        } else {
            let n = dec_val(s.subrange(pos + 3, j)) as int;
            if !(j + 3 <= s.len() && s[j] == '~' && s[j + 1] == 'm' && s[j + 2] == '~') {
                None
            } else if n > s.len() - (j + 3) {
                None
            } else {
                match frame_decode_from(s, j + 3 + n) {
                    Some(rest) => Some(rest.insert(0, s.subrange(j + 3, j + 3 + n))),
                    None => None,
                }
            }
        }
    }
}

#[via_fn]
proof fn frame_decode_from_dec(s: Seq<char>, pos: int) {
    if 0 <= pos && pos + 3 <= s.len() {
        lemma_digit_run_end_bounds(s, pos + 3);
    }
}

/// The payloads packed in the whole frame `s`.
pub open spec fn frame_decode(s: Seq<char>) -> Option<Seq<Seq<char>>> {
    frame_decode_from(s, 0)
}

/// The views of a list of payload strings.
pub open spec fn payloads_view(v: Seq<String>) -> Seq<Seq<char>> {
    Seq::new(v.len(), |i: int| v[i]@)
}

/// Codec round trip: a frame holding one encoded payload decodes to
/// exactly that payload.
pub proof fn lemma_frame_round_trip(payload: Seq<char>)
    ensures
        frame_decode(frame_encode(payload)) == Some(seq![payload]),
{
    reveal_strlit("~m~");
    let d = dec_rep(payload.len());
    crate::decimal::lemma_dec_rep_digits(payload.len());
    crate::decimal::lemma_dec_round_trip(payload.len());
    let s = frame_encode(payload);
    let dlen = d.len() as int;
    assert(s.len() == 6 + dlen + payload.len());
    assert(s[0] == '~' && s[1] == 'm' && s[2] == '~');
    assert forall|k: int| 3 <= k < 3 + dlen implies is_digit(s[k]) by {
        assert(s[k] == d[k - 3]);
        assert(crate::decimal::all_digits(d));
    }
    assert(s[3 + dlen] == '~');
    assert(!is_digit('~'));
    lemma_digit_run_end_is(s, 3, 3 + dlen);
    assert(s.subrange(3, 3 + dlen) =~= d);
    assert(s[3 + dlen + 1] == 'm');
    assert(s[3 + dlen + 2] == '~');
    assert(s.subrange(6 + dlen, s.len() as int) =~= payload);
    assert(frame_decode_from(s, s.len() as int) == Some(Seq::<Seq<char>>::empty()));
    assert(Seq::<Seq<char>>::empty().insert(0, payload) =~= seq![payload]);
}

/// Scans the digit run beginning at `start`.
fn scan_digit_run(frame: &str, start: usize) -> (j: usize)
    requires
        start <= frame@.len(),
    ensures
        start <= j <= frame@.len(),
        forall|k: int| start <= k < j ==> is_digit(#[trigger] frame@[k]),
        j == frame@.len() || !is_digit(frame@[j as int]),
{
    let s_len = frame.unicode_len();
    let mut j: usize = start;
    loop
        invariant
            start <= j <= s_len,
            s_len == frame@.len(),
            forall|k: int| start <= k < j ==> is_digit(#[trigger] frame@[k]),
        ensures
            start <= j <= s_len,
            s_len == frame@.len(),
            forall|k: int| start <= k < j ==> is_digit(#[trigger] frame@[k]),
            j == s_len || !is_digit(frame@[j as int]),
        decreases s_len - j,
    {
        if j >= s_len {
            break;
        }
        let c = frame.get_char(j);
        if c < '0' || c > '9' {
            break;
        }
        j = j + 1;
    }
    j
}

/// Unpacks every payload of one frame; a malformed envelope is an
/// error.
#[verifier::loop_isolation(false)]
pub fn decode(frame: &str) -> (r: Result<Vec<String>, ParseError>)
    ensures
        match r {
            Ok(v) => frame_decode(frame@) == Some(payloads_view(v@)),
            Err(_) => frame_decode(frame@) is None,
        },
{
    let s_len = frame.unicode_len();
    let mut pos: usize = 0;
    let mut out: Vec<String> = Vec::new();
    while pos < s_len
        invariant
            pos <= s_len,
            s_len == frame@.len(),
            frame_decode(frame@) == (match frame_decode_from(frame@, pos as int) {
                Some(rest) => Some(payloads_view(out@) + rest),
                None => None::<Seq<Seq<char>>>,
            }),
        decreases s_len - pos,
    {
        if s_len - pos < 3 || frame.get_char(pos) != '~' || frame.get_char(pos + 1) != 'm'
            || frame.get_char(pos + 2) != '~' {
            return Err(ParseError::new("malformed frame header"));
        }
        let digit_start = pos + 3;
        let j = scan_digit_run(frame, digit_start);
        proof {
            lemma_digit_run_end_is(frame@, digit_start as int, j as int);
        }
        if j == digit_start {
            return Err(ParseError::new("missing frame length"));
        }
        let digits = frame.substring_char(digit_start, j);
        let n = match parse_u64_decimal(digits) {
            Some(n) => n,
            None => {
                proof {
                    assert(dec_val(frame@.subrange(digit_start as int, j as int)) > u64::MAX);
                    assert(frame_decode_from(frame@, pos as int) is None);
                }
                return Err(ParseError::new("frame length out of range"));
            },
        };
        if s_len - j < 3 || frame.get_char(j) != '~' || frame.get_char(j + 1) != 'm'
            || frame.get_char(j + 2) != '~' {
            return Err(ParseError::new("malformed frame length delimiter"));
        }
        let body_start = j + 3;
        if n > (s_len - body_start) as u64 {
            return Err(ParseError::new("frame length exceeds frame"));
        }
        let body_end = body_start + (n as usize);
        let payload = frame.substring_char(body_start, body_end);
        let ghost old_out = out@;
        let ghost old_pos = pos as int;
        out.push(String::from_str(payload));
        pos = body_end;
        proof {
            assert(payloads_view(out@) =~= payloads_view(old_out).push(
                frame@.subrange(body_start as int, body_end as int),
            ));
            if frame_decode_from(frame@, pos as int) is Some {
                let rest = frame_decode_from(frame@, pos as int)->Some_0;
                assert(frame_decode_from(frame@, old_pos) == Some(
                    rest.insert(0, frame@.subrange(body_start as int, body_end as int)),
                ));
                assert(payloads_view(old_out) + rest.insert(
                    0,
                    frame@.subrange(body_start as int, body_end as int),
                ) =~= payloads_view(out@) + rest);
            }
        }
    }
    proof {
        assert(frame_decode_from(frame@, pos as int) == Some(Seq::<Seq<char>>::empty()));
        assert(payloads_view(out@) + Seq::<Seq<char>>::empty() =~= payloads_view(out@));
    }
    Ok(out)
}

/// Unpacks one frame and parses each payload, pairing every payload
/// with its message.
pub fn decode_and_parse(frame: &str) -> (r: Result<Vec<TradingViewMessageWrapper>, ParseError>)
    ensures
        match r {
            Ok(v) => frame_decode(frame@) matches Some(ps) && ps.len() == v@.len() && forall|
                i: int,
            |
                0 <= i < v@.len() ==> (#[trigger] v@[i])@.payload == ps[i]
                    && crate::parsed_message::parse_message_spec(ps[i]) == Ok::<_, ()>(
                    v@[i]@.parsed_message,
                ),
            Err(_) => frame_decode(frame@) is None || (frame_decode(frame@) matches Some(ps)
                && exists|i: int|
                0 <= i < ps.len() && crate::parsed_message::parse_message_spec(#[trigger] ps[i])
                    is Err),
        },
{
    let payloads = decode(frame)?;
    let ghost ps = payloads_view(payloads@);
    let mut out: Vec<TradingViewMessageWrapper> = Vec::new();
    let n = payloads.len();
    let mut i: usize = 0;
    while i < n
        invariant
            i <= n,
            n == payloads@.len(),
            ps == payloads_view(payloads@),
            ps.len() == payloads@.len(),
            frame_decode(frame@) == Some(ps),
            out@.len() == i,
            forall|k: int|
                0 <= k < i ==> (#[trigger] out@[k])@.payload == ps[k]
                    && crate::parsed_message::parse_message_spec(ps[k]) == Ok::<_, ()>(
                    out@[k]@.parsed_message,
                ),
        decreases n - i,
    {
        proof {
            assert(ps[i as int] == payloads@[i as int]@);
        }
        match ParsedTradingViewMessage::from_string(payloads[i].as_str()) {
            Ok(m) => {
                out.push(
                    TradingViewMessageWrapper {
                        payload: payloads[i].clone(),
                        parsed_message: m,
                    },
                );
            },
            Err(e) => {
                proof {
                    assert(crate::parsed_message::parse_message_spec(ps[i as int]) is Err);
                }
                return Err(e);
            },
        }
        i = i + 1;
    }
    Ok(out)
}

} // verus!
