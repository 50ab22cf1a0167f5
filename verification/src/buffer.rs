//! The shared message buffer and the timeout-bound wait primitive.
//!
//! A background reader appends parsed messages in arrival order; a
//! waiter removes the first message matching a predicate and leaves
//! every other message untouched, in order.  Waiting is a busy poll:
//! each failed scan costs one backoff increment, and a wait times out
//! once the elapsed time reaches the deadline.

use vstd::prelude::*;

use crate::codec::MessageWrapperV;
use crate::codec::TradingViewMessageWrapper;
use crate::parsed_message::MessageKind;
use crate::parsed_message::ParsedMessageV;
use crate::parsed_message::ParsedTradingViewMessage;
use crate::parsed_message::kind_of;

verus! {

/// What a waiter is looking for.  Predicates are closed so that every
/// wait point of the session state machine can be specified exactly.
#[derive(Debug, Clone, PartialEq)]
pub enum MessagePredicate {
    /// Any message at all.
    Any,
    /// A message of one kind.
    Kind(MessageKind),
    /// A data update whose study rows are present and non-empty.
    StudyDataUpdateNonEmpty,
    /// A quote data push carrying a real-time close or a last price.
    QuoteLastPrice,
}

/// Whether message `m` satisfies predicate `p`.
pub open spec fn pred_matches(p: MessagePredicate, m: ParsedMessageV) -> bool {
    match p {
        MessagePredicate::Any => true,
        MessagePredicate::Kind(k) => kind_of(m) == k,
        MessagePredicate::StudyDataUpdateNonEmpty => m matches ParsedMessageV::DataUpdate(d)
            && d.study_updates matches Some(s) && s.len() > 0,
        MessagePredicate::QuoteLastPrice => m matches ParsedMessageV::QuoteSeriesData(q) && (
        q.quote_update.rtc is Some || q.quote_update.lp is Some),
    }
}

impl MessagePredicate {
    /// Tests one message.
    pub fn matches(&self, m: &ParsedTradingViewMessage) -> (r: bool)
        ensures
            r == pred_matches(*self, m@),
    {
        match self {
            MessagePredicate::Any => true,
            MessagePredicate::Kind(k) => {
                let mk = m.kind();
                mk == *k
            },
            MessagePredicate::StudyDataUpdateNonEmpty => match m {
                ParsedTradingViewMessage::DataUpdate(d) => match &d.study_updates {
                    Some(s) => s.len() > 0,
                    None => false,
                },
                _ => false,
            },
            MessagePredicate::QuoteLastPrice => match m {
                ParsedTradingViewMessage::QuoteSeriesData(q) => q.quote_update.rtc.is_some()
                    || q.quote_update.lp.is_some(),
                _ => false,
            },
        }
    }
}

/// The views of the buffered messages.
pub open spec fn wrappers_view(items: Seq<TradingViewMessageWrapper>) -> Seq<MessageWrapperV> {
    Seq::new(items.len(), |i: int| items[i]@)
}

/// The position of the first buffered message matching `p`, if any.
pub open spec fn find_first_match(s: Seq<MessageWrapperV>, p: MessagePredicate) -> Option<int>
    decreases s.len(),
{
    if s.len() == 0 {
        None
    } else if pred_matches(p, s[0].parsed_message) {
        Some(0)
    } else {
        match find_first_match(s.drop_first(), p) {
            Some(j) => Some(j + 1),
            None => None,
        }
    }
}

/// `find_first_match` returns the first matching position.
pub proof fn lemma_find_first_match_at(s: Seq<MessageWrapperV>, p: MessagePredicate, i: int)
    requires
        0 <= i < s.len(),
        pred_matches(p, s[i].parsed_message),
        forall|j: int| 0 <= j < i ==> !pred_matches(p, (#[trigger] s[j]).parsed_message),
    ensures
        find_first_match(s, p) == Some(i),
    decreases i,
{
    if i > 0 {
        lemma_find_first_match_at(s.drop_first(), p, i - 1);
    }
}

/// `find_first_match` finds nothing when nothing matches.
pub proof fn lemma_find_first_match_none(s: Seq<MessageWrapperV>, p: MessagePredicate)
    requires
        forall|j: int| 0 <= j < s.len() ==> !pred_matches(p, (#[trigger] s[j]).parsed_message),
    ensures
        find_first_match(s, p) == None::<int>,
    decreases s.len(),
{
    if s.len() > 0 {
        lemma_find_first_match_none(s.drop_first(), p);
    }
}

/// The ordered buffer of parsed messages, appended by the reader and
/// drained selectively by waiters.
#[derive(Debug)]
pub struct MessageBuffer {
    items: Vec<TradingViewMessageWrapper>,
}

impl View for MessageBuffer {
    type V = Seq<MessageWrapperV>;

    closed spec fn view(&self) -> Seq<MessageWrapperV> {
        wrappers_view(self.items@)
    }
}

impl MessageBuffer {
    /// An empty buffer.
    pub fn new() -> (r: MessageBuffer)
        ensures
            r@ == Seq::<MessageWrapperV>::empty(),
    {
        let r = MessageBuffer { items: Vec::new() };
        proof {
            assert(r@ =~= Seq::<MessageWrapperV>::empty());
        }
        r
    }

    /// How many messages are buffered.
    pub fn len(&self) -> (r: usize)
        ensures
            r == self@.len(),
    {
        self.items.len()
    }

    /// Appends one message at the end, in arrival order.
    pub fn push(&mut self, w: TradingViewMessageWrapper)
        ensures
            final(self)@ == old(self)@.push(w@),
    {
        let ghost wv = w@;
        self.items.push(w);
        proof {
            assert(final(self)@ =~= old(self)@.push(wv));
        }
    }

    /// Removes and returns the first message matching `p`; every other
    /// message keeps its place and order.  The buffer is untouched
    /// when nothing matches.
    pub fn try_take(&mut self, p: &MessagePredicate) -> (r: Option<TradingViewMessageWrapper>)
        ensures
            match find_first_match(old(self)@, *p) {
                Some(i) => r matches Some(w) && w@ == old(self)@[i] && final(self)@ == old(
                    self,
                )@.remove(i),
                None => r is None && final(self)@ == old(self)@,
            },
    {
        let n = self.items.len();
        let mut i: usize = 0;
        while i < n
            invariant
                i <= n,
                n == self.items@.len(),
                self == old(self),
                forall|j: int|
                    0 <= j < i ==> !pred_matches(*p, (#[trigger] self.items@[j])@.parsed_message),
            decreases n - i,
        {
            if p.matches(&self.items[i].parsed_message) {
                proof {
                    assert forall|j: int| 0 <= j < i implies !pred_matches(
                        *p,
                        (#[trigger] self@[j]).parsed_message,
                    ) by {
                        assert(self@[j] == self.items@[j]@);
                    }
                    assert(self@[i as int] == self.items@[i as int]@);
                    lemma_find_first_match_at(self@, *p, i as int);
                }
                let w = self.items.remove(i);
                proof {
                    assert(final(self)@ =~= old(self)@.remove(i as int));
                }
                return Some(w);
            }
            i = i + 1;
        }
        proof {
            assert forall|j: int| 0 <= j < self@.len() implies !pred_matches(
                *p,
                (#[trigger] self@[j]).parsed_message,
            ) by {
                assert(self@[j] == self.items@[j]@);
            }
            lemma_find_first_match_none(self@, *p);
        }
        None
    }
}

/// What one poll of a timeout-bound wait decided.
#[derive(Debug)]
pub enum WaitPoll {
    /// A matching message was removed from the buffer.
    Found(TradingViewMessageWrapper),
    /// Nothing matched and the deadline has not passed: sleep one
    /// backoff increment and poll again.
    Sleep,
    /// Nothing matched and the deadline has passed.
    TimedOut,
}

/// One poll of the timeout-bound wait: take the first match if there
/// is one; otherwise time out once `elapsed_ms` has reached
/// `timeout_ms`, else charge one backoff increment and ask the caller
/// to sleep it.  The buffer is mutated only by a successful match.
pub fn wait_poll_step(
    buffer: &mut MessageBuffer,
    p: &MessagePredicate,
    elapsed_ms: &mut u64,
    timeout_ms: u64,
    backoff_ms: u64,
) -> (r: WaitPoll)
    ensures
        match find_first_match(old(buffer)@, *p) {
            Some(i) => r matches WaitPoll::Found(w) && w@ == old(buffer)@[i] && final(buffer)@
                == old(buffer)@.remove(i) && *final(elapsed_ms) == *old(elapsed_ms),
            None => final(buffer)@ == old(buffer)@ && (if *old(elapsed_ms) >= timeout_ms {
                r is TimedOut && *final(elapsed_ms) == *old(elapsed_ms)
            } else {
                r is Sleep && *final(elapsed_ms) == (if *old(elapsed_ms) + backoff_ms <= u64::MAX {
                    *old(elapsed_ms) + backoff_ms
                } else {
                    u64::MAX as int
                })
            }),
        },
{
    match buffer.try_take(p) {
        Some(w) => WaitPoll::Found(w),
        None => {
            if *elapsed_ms >= timeout_ms {
                WaitPoll::TimedOut
            } else {
                if *elapsed_ms > u64::MAX - backoff_ms {
                    *elapsed_ms = u64::MAX;
                } else {
                    *elapsed_ms = *elapsed_ms + backoff_ms;
                }
                WaitPoll::Sleep
            }
        },
    }
}

/// Timeout boundary of the polling wait: a wait whose predicate never
/// matches times out no earlier than the deadline and strictly before
/// the deadline plus one backoff increment.  The elapsed time of the
/// poll that first times out is `k` whole backoff increments, where
/// the previous poll was still before the deadline.
pub proof fn lemma_wait_timeout_boundary(timeout_ms: u64, backoff_ms: u64, k: nat)
    requires
        backoff_ms >= 1,
        k * backoff_ms >= timeout_ms,
        k > 0 ==> (k - 1) * backoff_ms < timeout_ms,
    ensures
        timeout_ms <= k * backoff_ms,
        k * backoff_ms < timeout_ms + backoff_ms,
{
    if k > 0 {
        assert(k * backoff_ms == (k - 1) * backoff_ms + backoff_ms) by (nonlinear_arith);
    } else {
        assert(k * backoff_ms == 0) by (nonlinear_arith)
            requires
                k == 0,
        ;
    }
}

} // verus!
