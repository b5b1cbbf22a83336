//! Verifiable message sources: each produces an identified, finite sequence
//! of MQTT messages whose payloads encode the session id and a sequence
//! number, so that a subscriber can verify delivery.

use vstd::prelude::*;

use crate::analyzers::session_prefix;
use crate::context::ContextualValue;
use crate::expr::eval_of;
use crate::message::Message;
use crate::text::dec_str;
use crate::text::push_dec;

verus! {

/// The payload of the message numbered `seq` (1-based) of session `id` out
/// of `total`: exactly `"<id>:<seq>/<total>"`.
pub open spec fn payload_str(id: Seq<char>, seq: nat, total: nat) -> Seq<char> {
    session_prefix(id) + dec_str(seq) + seq!['/'] + dec_str(total)
}

/// Every payload a source for session `id` with `total` messages emits over
/// its lifetime, in emission order.
pub open spec fn produced_payloads(id: Seq<char>, total: nat) -> Seq<Seq<char>> {
    Seq::new(total, |i: int| payload_str(id, (i + 1) as nat, total))
}

/// Law: a source emits exactly `total` payloads, and the one emitted at
/// position `k` (0-based, the value of `seq_no` before the call) is
/// `"<id>:<k+1>/<total>"`. Together with `next_message`'s contract this pins
/// the whole produced sequence.
pub proof fn lemma_source_produces(id: Seq<char>, total: nat, k: nat)
    requires
        k < total,
    ensures
        produced_payloads(id, total).len() == total,
        produced_payloads(id, total)[k as int] == payload_str(id, k + 1, total),
{
}

/// The source state after `k` emissions.
pub open spec fn source_after(s: VerifiableSource, k: nat) -> VerifiableSource
    decreases k,
{
    if k == 0 {
        s
    } else {
        source_after(s, (k - 1) as nat).stepped()
    }
}

/// Law: started fresh, a source emits its messages in strictly increasing
/// sequence order — after `k` emissions the next payload is entry `k` of
/// `produced_payloads` — and after `total_count` emissions it emits nothing
/// more, so the produced sequence is finite with exactly `total_count`
/// entries. `next_message` realizes one step of this trace whenever the
/// topic template evaluates.
pub proof fn lemma_source_stream(s: VerifiableSource, k: nat)
    requires
        s.seq_no == 0,
    ensures
        source_after(s, k).id == s.id,
        source_after(s, k).topic == s.topic,
        source_after(s, k).total_count == s.total_count,
        source_after(s, k).seq_no == (if k <= s.total_count {
            k
        } else {
            s.total_count as nat
        }),
        k < s.total_count ==> source_after(s, k).next_payload() == Some(
            produced_payloads(s.id@, s.total_count as nat)[k as int],
        ),
        k >= s.total_count ==> source_after(s, k).next_payload() is None,
    decreases k,
{
    if k != 0 {
        lemma_source_stream(s, (k - 1) as nat);
    }
}

/// A source that emits QoS 0 messages `"<id>:<seq>/<total>"` on the topic
/// its template evaluates to, once per tick, `total_count` messages in all.
pub struct VerifiableSource {
    pub id: String,
    pub topic: ContextualValue,
    pub seq_no: usize,
    pub total_count: usize,
    pub tick_interval_us: u64,
}

impl VerifiableSource {
    /// The source state after one emission; an exhausted source is unchanged.
    pub open spec fn stepped(self) -> VerifiableSource {
        if self.seq_no < self.total_count {
            VerifiableSource { seq_no: (self.seq_no + 1) as usize, ..self }
        } else {
            self
        }
    }

    /// The payload of the next message this source emits, or `None` once all
    /// `total_count` messages are out.
    pub open spec fn next_payload(self) -> Option<Seq<char>> {
        if self.seq_no < self.total_count {
            Some(payload_str(self.id@, (self.seq_no + 1) as nat, self.total_count as nat))
        } else {
            None
        }
    }

    /// A fresh source for session `id`: `total_count` messages on the topic
    /// `topic` evaluates to, one every `tick_interval_us` microseconds.
    pub fn new(id: String, topic: ContextualValue, total_count: usize, tick_interval_us: u64) -> (r:
        VerifiableSource)
        ensures
            r.id == id,
            r.topic == topic,
            r.seq_no == 0,
            r.total_count == total_count,
            r.tick_interval_us == tick_interval_us,
    {
        VerifiableSource { id, topic, seq_no: 0, total_count, tick_interval_us }
    }

    /// The next message of this source, or `None` once `total_count`
    /// messages have been emitted (and also when the topic template fails to
    /// evaluate, in which case the source does not advance).
    pub fn next_message(&mut self) -> (r: Option<Message>)
        ensures
            (match r {
                Some(m) => old(self).next_payload() == Some(m.payload@) && *final(self) == old(
                    self,
                ).stepped() && m.qos == 0 && eval_of(
                    old(self).topic.value@,
                    old(self).topic.context.env(),
                ) == Some(m.topic@),
                None => *final(self) == *old(self) && (old(self).seq_no >= old(self).total_count
                    || eval_of(old(self).topic.value@, old(self).topic.context.env()) is None),
            }),
    {
        if self.seq_no >= self.total_count {
            return None;
        }
        match self.topic.value() {
            None => None,
            Some(topic) => {
                self.seq_no += 1;
                let mut payload = String::new();
                payload.append(self.id.as_str());
                payload.append(":");
                push_dec(&mut payload, self.seq_no as u64);
                payload.append("/");
                push_dec(&mut payload, self.total_count as u64);
                proof {
                    reveal_strlit(":");
                    reveal_strlit("/");
                    assert(payload@ =~= payload_str(
                        self.id@,
                        self.seq_no as nat,
                        self.total_count as nat,
                    ));
                }
                Some(Message::new(topic, payload, 0))
            },
        }
    }
}

} // verus!
