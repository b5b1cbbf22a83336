//! Analyzers render a running verdict over a received message stream.
//!
//! Two analyzers exist: a session-id filter that forwards only messages whose
//! payload carries its session prefix, and a counter that expects an exact
//! number of messages. They compose by nesting (filter around counter).

use vstd::prelude::*;

use crate::errors::MqttVerifyError;
use crate::message::Message;
use crate::text::dec_str;
use crate::text::push_dec;
use crate::text::str_starts_with;

verus! {

/// Verdict of an analyzer that has not failed: keep feeding it, or stop
/// because it has seen everything it expected.
#[derive(Debug, PartialEq, Eq, Structural)]
pub enum State {
    Continue,
    Done,
}

/// The reason a counter reports when it sees more messages than expected.
pub open spec fn failure_reason(expected: nat) -> Seq<char> {
    "Expected only "@ + dec_str(expected) + " messages"@
}

/// The prefix a session-id filter matches payloads against: the session id
/// followed by a colon.
pub open spec fn session_prefix(id: Seq<char>) -> Seq<char> {
    id.push(':')
}

/// Counts accepted messages against an expected total.
pub struct CountingAnalyzer {
    pub count: usize,
    pub expected_total: usize,
}

/// Forwards only messages of one session to a nested analyzer.
pub struct SessionIdFilter {
    pub id: String,
    pub child: Box<Analyzer>,
}

/// An analyzer: a counter, or a session-id filter around another analyzer.
pub enum Analyzer {
    Filter(SessionIdFilter),
    Counting(CountingAnalyzer),
}

impl CountingAnalyzer {
    /// The count after one more message: it advances until it has just
    /// exceeded the expected total and then stays put, so the verdict below
    /// is unchanged by further messages.
    pub open spec fn next_count(self) -> nat {
        if self.count <= self.expected_total && self.count < usize::MAX {
            (self.count + 1) as nat
        } else {
            self.count as nat
        }
    }

    /// The verdict on the next message: `Continue` below the expected total,
    /// `Done` exactly at it, and the failure reason above it.
    pub open spec fn spec_verdict(self) -> Result<State, Seq<char>> {
        if self.next_count() > self.expected_total {
            Err(failure_reason(self.expected_total as nat))
        } else if self.next_count() == self.expected_total {
            Ok(State::Done)
        } else {
            Ok(State::Continue)
        }
    }

    /// The counter state after the next message.
    pub open spec fn stepped(self) -> CountingAnalyzer {
        CountingAnalyzer { count: self.next_count() as usize, expected_total: self.expected_total }
    }

    /// A fresh counter expecting exactly `total_count` messages.
    pub fn new(total_count: usize) -> (r: CountingAnalyzer)
        ensures
            r.count == 0,
            r.expected_total == total_count,
    {
        CountingAnalyzer { count: 0, expected_total: total_count }
    }

    /// Counts the message and answers `Continue` while the count is below
    /// the expected total, `Done` when it reaches it, and a
    /// `VerificationFailure` after that.
    pub fn analyze(&mut self, _message: Message) -> (r: Result<State, MqttVerifyError>)
        ensures
            *final(self) == old(self).stepped(),
            (match r {
                Ok(s) => old(self).spec_verdict() == Ok::<State, Seq<char>>(s),
                Err(MqttVerifyError::VerificationFailure { reason }) => old(self).spec_verdict()
                    == Err::<State, Seq<char>>(reason@),
                Err(_) => false,
            }),
    {
        if self.count <= self.expected_total && self.count < usize::MAX {
            self.count += 1;
        }
        if self.count > self.expected_total {
            let mut reason = String::new();
            reason.append("Expected only ");
            push_dec(&mut reason, self.expected_total as u64);
            reason.append(" messages");
            proof {
                assert(reason@ =~= failure_reason(self.expected_total as nat));
            }
            Err(MqttVerifyError::VerificationFailure { reason })
        } else if self.count == self.expected_total {
            Ok(State::Done)
        } else {
            Ok(State::Continue)
        }
    }
}

impl Analyzer {
    /// The verdict this analyzer renders on a message with payload
    /// `payload`; an `Err` carries the failure reason.
    pub open spec fn spec_verdict(self, payload: Seq<char>) -> Result<State, Seq<char>>
        decreases self,
    {
        match self {
            Analyzer::Counting(c) => c.spec_verdict(),
            Analyzer::Filter(f) => if f.id@.is_prefix_of(payload) {
                f.child.spec_verdict(payload)
            } else {
                Ok(State::Continue)
            },
        }
    }

    /// The analyzer state after analyzing a message with payload `payload`.
    pub open spec fn stepped(self, payload: Seq<char>) -> Analyzer
        decreases self,
    {
        match self {
            Analyzer::Counting(c) => Analyzer::Counting(c.stepped()),
            Analyzer::Filter(f) => if f.id@.is_prefix_of(payload) {
                Analyzer::Filter(
                    SessionIdFilter { id: f.id, child: Box::new(f.child.stepped(payload)) },
                )
            } else {
                self
            },
        }
    }

    /// Feeds one message to the analyzer.
    pub fn analyze(&mut self, message: Message) -> (r: Result<State, MqttVerifyError>)
        ensures
            *final(self) == old(self).stepped(message.payload@),
            (match r {
                Ok(s) => old(self).spec_verdict(message.payload@) == Ok::<State, Seq<char>>(s),
                Err(MqttVerifyError::VerificationFailure { reason }) => old(self).spec_verdict(
                    message.payload@,
                ) == Err::<State, Seq<char>>(reason@),
                Err(_) => false,
            }),
        decreases *old(self),
    {
        match self {
            Analyzer::Counting(c) => c.analyze(message),
            Analyzer::Filter(f) => f.analyze(message),
        }
    }
}

impl SessionIdFilter {
    /// A filter for session `id` around `child`: the stored prefix is the id
    /// followed by a colon.
    pub fn new(mut id: String, child: Box<Analyzer>) -> (r: SessionIdFilter)
        ensures
            r.id@ == session_prefix(id@),
            r.child == child,
    {
        id.append(":");
        proof {
            reveal_strlit(":");
        }
        SessionIdFilter { id, child }
    }

    /// The verdict this filter renders on a message with payload `payload`.
    pub open spec fn spec_verdict(self, payload: Seq<char>) -> Result<State, Seq<char>> {
        Analyzer::Filter(self).spec_verdict(payload)
    }

    /// Forwards the message to the nested analyzer exactly when its payload
    /// starts with the stored session prefix; anything else is not ours and
    /// yields `Continue` untouched.
    pub fn analyze(&mut self, message: Message) -> (r: Result<State, MqttVerifyError>)
        ensures
            Analyzer::Filter(*final(self)) == Analyzer::Filter(*old(self)).stepped(
                message.payload@,
            ),
            (match r {
                Ok(s) => Analyzer::Filter(*old(self)).spec_verdict(message.payload@) == Ok::<
                    State,
                    Seq<char>,
                >(s),
                Err(MqttVerifyError::VerificationFailure { reason }) => Analyzer::Filter(
                    *old(self),
                ).spec_verdict(message.payload@) == Err::<State, Seq<char>>(reason@),
                Err(_) => false,
            }),
        decreases *old(self),
    {
        if str_starts_with(message.payload_str(), self.id.as_str()) {
            self.child.analyze(message)
        } else {
            Ok(State::Continue)
        }
    }
}

/// Law: a session-id filter built for `id` hands a payload to its child
/// exactly when the payload starts with `id` followed by a colon; every
/// other payload yields `Continue` and leaves the child untouched. An id
/// that matches without the colon does not forward.
pub proof fn lemma_filter_forwards(f: SessionIdFilter, id: Seq<char>, payload: Seq<char>)
    requires
        f.id@ == session_prefix(id),
    ensures
        session_prefix(id).is_prefix_of(payload) ==> f.spec_verdict(payload)
            == f.child.spec_verdict(payload) && Analyzer::Filter(f).stepped(payload)
            == Analyzer::Filter(
            SessionIdFilter { id: f.id, child: Box::new(f.child.stepped(payload)) },
        ),
        !session_prefix(id).is_prefix_of(payload) ==> f.spec_verdict(payload) == Ok::<
            State,
            Seq<char>,
        >(State::Continue) && Analyzer::Filter(f).stepped(payload) == Analyzer::Filter(f),
{
}

/// The counter state after `k` messages, starting from a fresh counter that
/// expects `n` messages.
pub open spec fn counting_after(n: usize, k: nat) -> CountingAnalyzer
    decreases k,
{
    if k == 0 {
        CountingAnalyzer { count: 0, expected_total: n }
    } else {
        counting_after(n, (k - 1) as nat).stepped()
    }
}

proof fn lemma_counting_count(n: usize, k: nat)
    requires
        n < usize::MAX,
    ensures
        counting_after(n, k).expected_total == n,
        counting_after(n, k).count == (if k <= n { k } else {
            (n + 1) as nat
        }),
    decreases k,
{
    if k != 0 {
        lemma_counting_count(n, (k - 1) as nat);
    }
}

/// Law: a fresh counter expecting `n` messages answers `Continue` to each of
/// the first `n - 1` messages, `Done` to the `n`-th, and the failure reason
/// to every later one. (The bound on `n` keeps the count a machine integer.)
pub proof fn lemma_counting_verdicts(n: usize, k: nat)
    requires
        n < usize::MAX,
        k >= 1,
    ensures
        counting_after(n, k) == counting_after(n, (k - 1) as nat).stepped(),
        counting_after(n, (k - 1) as nat).spec_verdict() == (if k < n {
            Ok::<State, Seq<char>>(State::Continue)
        } else if k == n {
            Ok::<State, Seq<char>>(State::Done)
        } else {
            Err::<State, Seq<char>>(failure_reason(n as nat))
        }),
{
    lemma_counting_count(n, (k - 1) as nat);
}

} // verus!
