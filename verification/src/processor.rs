//! The stateful message processor.
//!
//! It keeps one last-known record per update category.  Quote updates
//! merge field by field: only fields present in the incoming message
//! overwrite held values.  Timescale and data updates replace the held
//! record wholesale, but only when the message carries exactly one
//! element; zero or several elements yield a warning and no state
//! change.

use vstd::prelude::*;

use crate::messages::QuoteSeriesDataUpdate;
use crate::messages::QuoteSeriesDataUpdateV;
use crate::messages::SeriesUpdate;
use crate::messages::StudyUpdate;
use crate::messages::StudyUpdateV;
use crate::messages::TimescaleUpdate;
use crate::parsed_message::ParsedMessageV;
use crate::parsed_message::ParsedTradingViewMessage;

verus! {

/// A warning from the processor; the held state did not change for
/// the category named.
#[derive(Debug, Clone, Copy, PartialEq, Eq, Structural)]
pub enum ProcessWarning {
    /// A timescale update carried no update list at all.
    NoTimescaleUpdates,
    /// A timescale update carried an empty update list.
    EmptyTimescaleUpdates,
    /// A timescale update carried more than one element.
    MultipleTimescaleUpdates,
    /// A data update carried an empty study row list.
    EmptyStudyUpdates,
    /// A data update carried more than one study row.
    MultipleStudyUpdates,
    /// A data update carried an empty candle list.
    EmptySeriesUpdates,
    /// A data update carried more than one candle.
    MultipleSeriesUpdates,
}

/// The last-known-value record per update category, each with the time
/// it was last refreshed.
#[derive(Debug)]
pub struct StatefulMessageProcessor {
    pub quote_update: Option<QuoteSeriesDataUpdate>,
    pub timescale_update: Option<TimescaleUpdate>,
    pub study_update: Option<StudyUpdate>,
    pub series_update: Option<SeriesUpdate>,
    pub last_quote_update: Option<u64>,
    pub last_timescale_update: Option<u64>,
    pub last_series_update: Option<u64>,
    pub last_study_update: Option<u64>,
}

/// The view of a [`StatefulMessageProcessor`].
pub struct ProcessorV {
    pub quote_update: Option<QuoteSeriesDataUpdateV>,
    pub timescale_update: Option<TimescaleUpdate>,
    pub study_update: Option<StudyUpdateV>,
    pub series_update: Option<SeriesUpdate>,
    pub last_quote_update: Option<u64>,
    pub last_timescale_update: Option<u64>,
    pub last_series_update: Option<u64>,
    pub last_study_update: Option<u64>,
}

impl View for StatefulMessageProcessor {
    type V = ProcessorV;

    open spec fn view(&self) -> ProcessorV {
        ProcessorV {
            quote_update: match self.quote_update {
                Some(ref q) => Some(q@),
                None => None,
            },
            timescale_update: self.timescale_update,
            study_update: match self.study_update {
                Some(ref s) => Some(s@),
                None => None,
            },
            series_update: self.series_update,
            last_quote_update: self.last_quote_update,
            last_timescale_update: self.last_timescale_update,
            last_series_update: self.last_series_update,
            last_study_update: self.last_study_update,
        }
    }
}

/// The empty processor state.
pub open spec fn empty_processor() -> ProcessorV {
    ProcessorV {
        quote_update: None,
        timescale_update: None,
        study_update: None,
        series_update: None,
        last_quote_update: None,
        last_timescale_update: None,
        last_series_update: None,
        last_study_update: None,
    }
}

impl Default for StatefulMessageProcessor {
    /// A processor that has seen nothing yet.
    fn default() -> (r: Self)
        ensures
            r@ == empty_processor(),
    {
        StatefulMessageProcessor {
            quote_update: None,
            timescale_update: None,
            study_update: None,
            series_update: None,
            last_quote_update: None,
            last_timescale_update: None,
            last_series_update: None,
            last_study_update: None,
        }
    }
}

/// The field-by-field quote merge.  With no held record the incoming
/// update is taken whole; otherwise a field present in the incoming
/// update overwrites the held field and an absent field leaves it
/// untouched.  The symbol of a held record is never revised.
pub open spec fn merge_quote(
    held: Option<QuoteSeriesDataUpdateV>,
    u: QuoteSeriesDataUpdateV,
) -> QuoteSeriesDataUpdateV {
    match held {
        None => u,
        Some(h) => QuoteSeriesDataUpdateV {
            symbol: h.symbol,
            volume: if u.volume is Some {
                u.volume
            } else {
                h.volume
            },
            ch: if u.ch is Some {
                u.ch
            } else {
                h.ch
            },
            chp: if u.chp is Some {
                u.chp
            } else {
                h.chp
            },
            rch: if u.rch is Some {
                u.rch
            } else {
                h.rch
            },
            rchp: if u.rchp is Some {
                u.rchp
            } else {
                h.rchp
            },
            rtc: if u.rtc is Some {
                u.rtc
            } else {
                h.rtc
            },
            rtc_time: if u.rtc_time is Some {
                u.rtc_time
            } else {
                h.rtc_time
            },
            lp: if u.lp is Some {
                u.lp
            } else {
                h.lp
            },
            lp_time: if u.lp_time is Some {
                u.lp_time
            } else {
                h.lp_time
            },
            ask: if u.ask is Some {
                u.ask
            } else {
                h.ask
            },
            ask_size: if u.ask_size is Some {
                u.ask_size
            } else {
                h.ask_size
            },
            bid: if u.bid is Some {
                u.bid
            } else {
                h.bid
            },
            bid_size: if u.bid_size is Some {
                u.bid_size
            } else {
                h.bid_size
            },
            trade_loaded: if u.trade_loaded is Some {
                u.trade_loaded
            } else {
                h.trade_loaded
            },
        },
    }
}

/// What processing one message does to the held state, and the
/// warnings it emits.
pub open spec fn spec_process(p: ProcessorV, m: ParsedMessageV, now: u64) -> (
    ProcessorV,
    Seq<ProcessWarning>,
) {
    match m {
        ParsedMessageV::QuoteSeriesData(q) => (
            ProcessorV {
                quote_update: Some(merge_quote(p.quote_update, q.quote_update)),
                last_quote_update: Some(now),
                ..p
            },
            Seq::empty(),
        ),
        ParsedMessageV::TimescaleUpdate(t) => match t.updates {
            Some(ups) => if ups.len() == 0 {
                (p, seq![ProcessWarning::EmptyTimescaleUpdates])
            } else if ups.len() == 1 {
                (
                    ProcessorV {
                        timescale_update: Some(ups[0]),
                        last_timescale_update: Some(now),
                        ..p
                    },
                    Seq::empty(),
                )
            } else {
                (p, seq![ProcessWarning::MultipleTimescaleUpdates])
            },
            None => (p, seq![ProcessWarning::NoTimescaleUpdates]),
        },
        ParsedMessageV::DataUpdate(d) => {
            let (p1, w1) = spec_process_study_part(p, d.study_updates, now);
            let (p2, w2) = spec_process_series_part(p1, d.series_updates, now);
            (p2, w1 + w2)
        },
        _ => (p, Seq::empty()),
    }
}

/// The study half of a data update: replace only on exactly one row.
pub open spec fn spec_process_study_part(
    p: ProcessorV,
    study_updates: Option<Seq<StudyUpdateV>>,
    now: u64,
) -> (ProcessorV, Seq<ProcessWarning>) {
    match study_updates {
        Some(s) => if s.len() == 0 {
            (p, seq![ProcessWarning::EmptyStudyUpdates])
        } else if s.len() == 1 {
            (ProcessorV { study_update: Some(s[0]), last_study_update: Some(now), ..p }, Seq::empty())
        } else {
            (p, seq![ProcessWarning::MultipleStudyUpdates])
        },
        None => (p, Seq::empty()),
    }
}

/// The series half of a data update: replace only on exactly one
/// candle.
pub open spec fn spec_process_series_part(
    p: ProcessorV,
    series_updates: Option<Seq<SeriesUpdate>>,
    now: u64,
) -> (ProcessorV, Seq<ProcessWarning>) {
    match series_updates {
        Some(s) => if s.len() == 0 {
            (p, seq![ProcessWarning::EmptySeriesUpdates])
        } else if s.len() == 1 {
            (
                ProcessorV { series_update: Some(s[0]), last_series_update: Some(now), ..p },
                Seq::empty(),
            )
        } else {
            (p, seq![ProcessWarning::MultipleSeriesUpdates])
        },
        None => (p, Seq::empty()),
    }
}

impl StatefulMessageProcessor {
    /// Processes one message at time `now`, merging it into the held
    /// state and returning the warnings it raised.
    #[verifier::rlimit(60)]
    pub fn process_message(&mut self, parsed_message: &ParsedTradingViewMessage, now: u64) -> (r:
        Vec<ProcessWarning>)
        ensures
            final(self)@ == spec_process(old(self)@, parsed_message@, now).0,
            r@ == spec_process(old(self)@, parsed_message@, now).1,
    {
        let mut warnings: Vec<ProcessWarning> = Vec::new();
        match parsed_message {
            ParsedTradingViewMessage::QuoteSeriesData(q) => {
                match &mut self.quote_update {
                    None => {
                        self.quote_update = Some(q.quote_update.clone_update());
                    },
                    Some(held) => {
                        if q.quote_update.volume.is_some() {
                            held.volume = q.quote_update.volume;
                        }
                        if q.quote_update.ch.is_some() {
                            held.ch = q.quote_update.ch;
                        }
                        if q.quote_update.chp.is_some() {
                            held.chp = q.quote_update.chp;
                        }
                        if q.quote_update.rch.is_some() {
                            held.rch = q.quote_update.rch;
                        }
                        if q.quote_update.rchp.is_some() {
                            held.rchp = q.quote_update.rchp;
                        }
                        if q.quote_update.rtc.is_some() {
                            held.rtc = q.quote_update.rtc;
                        }
                        if q.quote_update.rtc_time.is_some() {
                            held.rtc_time = q.quote_update.rtc_time;
                        }
                        if q.quote_update.lp.is_some() {
                            held.lp = q.quote_update.lp;
                        }
                        if q.quote_update.lp_time.is_some() {
                            held.lp_time = q.quote_update.lp_time;
                        }
                        if q.quote_update.ask.is_some() {
                            held.ask = q.quote_update.ask;
                        }
                        if q.quote_update.ask_size.is_some() {
                            held.ask_size = q.quote_update.ask_size;
                        }
                        if q.quote_update.bid.is_some() {
                            held.bid = q.quote_update.bid;
                        }
                        if q.quote_update.bid_size.is_some() {
                            held.bid_size = q.quote_update.bid_size;
                        }
                        if q.quote_update.trade_loaded.is_some() {
                            held.trade_loaded = q.quote_update.trade_loaded;
                        }
                    },
                }
                self.last_quote_update = Some(now);
            },
            ParsedTradingViewMessage::TimescaleUpdate(t) => {
                match &t.updates {
                    Some(ups) => {
                        if ups.len() == 0 {
                            warnings.push(ProcessWarning::EmptyTimescaleUpdates);
                        } else if ups.len() == 1 {
                            self.timescale_update = Some(ups[0]);
                            self.last_timescale_update = Some(now);
                        } else {
                            warnings.push(ProcessWarning::MultipleTimescaleUpdates);
                        }
                    },
                    None => {
                        warnings.push(ProcessWarning::NoTimescaleUpdates);
                    },
                }
            },
            ParsedTradingViewMessage::DataUpdate(d) => {
                match &d.study_updates {
                    Some(s) => {
                        if s.len() == 0 {
                            warnings.push(ProcessWarning::EmptyStudyUpdates);
                        } else if s.len() == 1 {
                            self.study_update = Some(s[0].clone_update());
                            self.last_study_update = Some(now);
                        } else {
                            warnings.push(ProcessWarning::MultipleStudyUpdates);
                        }
                    },
                    None => {},
                }
                match &d.series_updates {
                    Some(s) => {
                        if s.len() == 0 {
                            warnings.push(ProcessWarning::EmptySeriesUpdates);
                        } else if s.len() == 1 {
                            self.series_update = Some(s[0]);
                            self.last_series_update = Some(now);
                        } else {
                            warnings.push(ProcessWarning::MultipleSeriesUpdates);
                        }
                    },
                    None => {},
                }
                proof {
                    let parts = spec_process(old(self)@, parsed_message@, now);
                    assert(warnings@ =~= parts.1);
                }
            },
            _ => {},
        }
        warnings
    }
}

impl QuoteSeriesDataUpdate {
    /// A field-for-field copy.
    pub fn clone_update(&self) -> (r: QuoteSeriesDataUpdate)
        ensures
            r@ == self@,
    {
        QuoteSeriesDataUpdate {
            symbol: self.symbol.clone(),
            volume: self.volume,
            ch: self.ch,
            chp: self.chp,
            rch: self.rch,
            rchp: self.rchp,
            rtc: self.rtc,
            rtc_time: self.rtc_time,
            lp: self.lp,
            lp_time: self.lp_time,
            ask: self.ask,
            ask_size: self.ask_size,
            bid: self.bid,
            bid_size: self.bid_size,
            trade_loaded: self.trade_loaded,
        }
    }
}

impl StudyUpdate {
    /// A field-for-field copy.
    pub fn clone_update(&self) -> (r: StudyUpdate)
        ensures
            r@ == self@,
    {
        let mut values: Vec<crate::json::JsonNumber> = Vec::new();
        let n = self.values.len();
        let mut i: usize = 0;
        while i < n
            invariant
                i <= n,
                n == self.values@.len(),
                values@ =~= self.values@.take(i as int),
            decreases n - i,
        {
            values.push(self.values[i]);
            i = i + 1;
        }
        proof {
            assert(values@ =~= self.values@);
        }
        StudyUpdate { index: self.index, values }
    }
}

/// Quote merge idempotence: merging the same update twice holds the
/// same record as merging it once.
pub proof fn lemma_quote_merge_idempotent(
    held: Option<QuoteSeriesDataUpdateV>,
    u: QuoteSeriesDataUpdateV,
)
    ensures
        merge_quote(Some(merge_quote(held, u)), u) == merge_quote(held, u),
{
}

/// Processing the same quote message twice at the same time yields the
/// same held state as processing it once.
pub proof fn lemma_process_quote_idempotent(p: ProcessorV, m: ParsedMessageV, now: u64)
    requires
        m is QuoteSeriesData,
    ensures
        spec_process(spec_process(p, m, now).0, m, now).0 == spec_process(p, m, now).0,
{
    match m {
        ParsedMessageV::QuoteSeriesData(q) => {
            lemma_quote_merge_idempotent(p.quote_update, q.quote_update);
        },
        _ => {},
    }
}

/// Quote merge monotonicity: a merge never clears a field that the
/// held record has set, whatever the incoming update omits.
pub proof fn lemma_quote_merge_monotonic(h: QuoteSeriesDataUpdateV, u: QuoteSeriesDataUpdateV)
    ensures
        h.volume is Some ==> merge_quote(Some(h), u).volume is Some,
        h.ch is Some ==> merge_quote(Some(h), u).ch is Some,
        h.chp is Some ==> merge_quote(Some(h), u).chp is Some,
        h.rch is Some ==> merge_quote(Some(h), u).rch is Some,
        h.rchp is Some ==> merge_quote(Some(h), u).rchp is Some,
        h.rtc is Some ==> merge_quote(Some(h), u).rtc is Some,
        h.rtc_time is Some ==> merge_quote(Some(h), u).rtc_time is Some,
        h.lp is Some ==> merge_quote(Some(h), u).lp is Some,
        h.lp_time is Some ==> merge_quote(Some(h), u).lp_time is Some,
        h.ask is Some ==> merge_quote(Some(h), u).ask is Some,
        h.ask_size is Some ==> merge_quote(Some(h), u).ask_size is Some,
        h.bid is Some ==> merge_quote(Some(h), u).bid is Some,
        h.bid_size is Some ==> merge_quote(Some(h), u).bid_size is Some,
        h.trade_loaded is Some ==> merge_quote(Some(h), u).trade_loaded is Some,
{
}

/// The exactly-one policy: a timescale or data update carrying zero or
/// several elements leaves the held state unchanged, signalling only a
/// warning.
pub proof fn lemma_exactly_one_policy(p: ProcessorV, m: ParsedMessageV, now: u64)
    ensures
        m matches ParsedMessageV::TimescaleUpdate(t) && (match t.updates {
            Some(ups) => ups.len() != 1,
            None => true,
        }) ==> spec_process(p, m, now).0 == p && spec_process(p, m, now).1.len() == 1,
        m matches ParsedMessageV::DataUpdate(d) && (match d.study_updates {
            Some(s) => s.len() != 1,
            None => false,
        }) ==> spec_process(p, m, now).0.study_update == p.study_update && spec_process(
            p,
            m,
            now,
        ).0.last_study_update == p.last_study_update,
        m matches ParsedMessageV::DataUpdate(d) && (match d.series_updates {
            Some(s) => s.len() != 1,
            None => false,
        }) ==> spec_process(p, m, now).0.series_update == p.series_update && spec_process(
            p,
            m,
            now,
        ).0.last_series_update == p.last_series_update,
{
}

} // verus!
