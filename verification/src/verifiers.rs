//! The verifier pipeline: a second spelling of the analyzer combinators,
//! answering `Healthy` where the analyzers answer `Continue`. Kept for
//! callers that use the `Verifier` vocabulary.

use vstd::prelude::*;

use crate::analyzers::failure_reason;
use crate::analyzers::session_prefix;
use crate::errors::MqttVerifyError;
use crate::message::Message;
use crate::text::push_dec;
use crate::text::str_starts_with;

verus! {

/// Verdict of a verifier that has not failed: the stream still looks
/// healthy, or the verifier has seen everything it expected.
#[derive(Debug, PartialEq, Eq, Structural)]
pub enum State {
    Healthy,
    Done,
}

/// Counts accepted messages against an expected total.
pub struct CountingVerifier {
    pub count: usize,
    pub expected_total: usize,
}

/// Forwards only messages of one session to a nested verifier.
pub struct SessionIdFilter {
    pub id: String,
    pub child: Box<Verifier>,
}

/// A verifier: a counter, or a session-id filter around another verifier.
pub enum Verifier {
    Filter(SessionIdFilter),
    Counting(CountingVerifier),
}

impl CountingVerifier {
    /// The count after one more message: it advances until it has just
    /// exceeded the expected total and then stays put.
    pub open spec fn next_count(self) -> nat {
        if self.count <= self.expected_total && self.count < usize::MAX {
            (self.count + 1) as nat
        } else {
            self.count as nat
        }
    }

    /// The verdict on the next message: `Healthy` below the expected total,
    /// `Done` exactly at it, and the failure reason above it.
    pub open spec fn spec_verdict(self) -> Result<State, Seq<char>> {
        if self.next_count() > self.expected_total {
            Err(failure_reason(self.expected_total as nat))
        } else if self.next_count() == self.expected_total {
            Ok(State::Done)
        } else {
            Ok(State::Healthy)
        }
    }

    /// The counter state after the next message.
    pub open spec fn stepped(self) -> CountingVerifier {
        CountingVerifier { count: self.next_count() as usize, expected_total: self.expected_total }
    }

    /// A fresh counter expecting exactly `total_count` messages.
    pub fn new(total_count: usize) -> (r: CountingVerifier)
        ensures
            r.count == 0,
            r.expected_total == total_count,
    {
        CountingVerifier { count: 0, expected_total: total_count }
    }

    /// Counts the message and answers `Healthy` while the count is below
    /// the expected total, `Done` when it reaches it, and a
    /// `VerificationFailure` after that.
    pub fn verify(&mut self, _message: Message) -> (r: Result<State, MqttVerifyError>)
        ensures
            *final(self) == old(self).stepped(),
            (match r {
                Ok(s) => old(self).spec_verdict() == Ok::<State, Seq<char>>(s),
                Err(MqttVerifyError::VerificationFailure { reason }) => old(self).spec_verdict()
                    == Err::<State, Seq<char>>(reason@),
                Err(_) => false,
            }),
    {
        if self.count <= self.expected_total && self.count < usize::MAX {
            self.count += 1;
        }
        if self.count > self.expected_total {
            let mut reason = String::new();
            reason.append("Expected only ");
            push_dec(&mut reason, self.expected_total as u64);
            reason.append(" messages");
            proof {
                assert(reason@ =~= failure_reason(self.expected_total as nat));
            }
            Err(MqttVerifyError::VerificationFailure { reason })
        } else if self.count == self.expected_total {
            Ok(State::Done)
        } else {
            Ok(State::Healthy)
        }
    }
}

impl Verifier {
    /// The verdict this verifier renders on a message with payload
    /// `payload`; an `Err` carries the failure reason.
    pub open spec fn spec_verdict(self, payload: Seq<char>) -> Result<State, Seq<char>>
        decreases self,
    {
        match self {
            Verifier::Counting(c) => c.spec_verdict(),
            Verifier::Filter(f) => if f.id@.is_prefix_of(payload) {
                f.child.spec_verdict(payload)
            } else {
                Ok(State::Healthy)
            },
        }
    }

    /// The verifier state after seeing a message with payload `payload`.
    pub open spec fn stepped(self, payload: Seq<char>) -> Verifier
        decreases self,
    {
        match self {
            Verifier::Counting(c) => Verifier::Counting(c.stepped()),
            Verifier::Filter(f) => if f.id@.is_prefix_of(payload) {
                Verifier::Filter(
                    SessionIdFilter { id: f.id, child: Box::new(f.child.stepped(payload)) },
                )
            } else {
                self
            },
        }
    }

    /// Feeds one message to the verifier.
    pub fn verify(&mut self, message: Message) -> (r: Result<State, MqttVerifyError>)
        ensures
            *final(self) == old(self).stepped(message.payload@),
            (match r {
                Ok(s) => old(self).spec_verdict(message.payload@) == Ok::<State, Seq<char>>(s),
                Err(MqttVerifyError::VerificationFailure { reason }) => old(self).spec_verdict(
                    message.payload@,
                ) == Err::<State, Seq<char>>(reason@),
                Err(_) => false,
            }),
        decreases *old(self),
    {
        match self {
            Verifier::Counting(c) => c.verify(message),
            Verifier::Filter(f) => f.verify(message),
        }
    }
}

impl SessionIdFilter {
    /// A filter for session `id` around `child`: the stored prefix is the id
    /// followed by a colon.
    pub fn new(mut id: String, child: Box<Verifier>) -> (r: SessionIdFilter)
        ensures
            r.id@ == session_prefix(id@),
            r.child == child,
    {
        id.append(":");
        proof {
            reveal_strlit(":");
        }
        SessionIdFilter { id, child }
    }

    /// Forwards the message to the nested verifier exactly when its payload
    /// starts with the stored session prefix; anything else is not ours and
    /// yields `Healthy` untouched.
    pub fn verify(&mut self, message: Message) -> (r: Result<State, MqttVerifyError>)
        ensures
            Verifier::Filter(*final(self)) == Verifier::Filter(*old(self)).stepped(
                message.payload@,
            ),
            (match r {
                Ok(s) => Verifier::Filter(*old(self)).spec_verdict(message.payload@) == Ok::<
                    State,
                    Seq<char>,
                >(s),
                Err(MqttVerifyError::VerificationFailure { reason }) => Verifier::Filter(
                    *old(self),
                ).spec_verdict(message.payload@) == Err::<State, Seq<char>>(reason@),
                Err(_) => false,
            }),
        decreases *old(self),
    {
        if str_starts_with(message.payload_str(), self.id.as_str()) {
            self.child.verify(message)
        } else {
            Ok(State::Healthy)
        }
    }
}

} // verus!
