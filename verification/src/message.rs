use vstd::prelude::*;

verus! {

/// An MQTT application message as the scenario engine sees it: a topic, a
/// UTF-8 payload, and the requested quality-of-service level. The transport
/// front end converts values of this type to and from its client library's
/// message type.
#[derive(Clone)]
pub struct Message {
    pub topic: String,
    pub payload: String,
    pub qos: i32,
}

impl Message {
    pub fn new(topic: String, payload: String, qos: i32) -> (r: Message)
        ensures
            r.topic@ == topic@,
            r.payload@ == payload@,
            r.qos == qos,
    {
        Message { topic, payload, qos }
    }

    /// The payload as a string slice.
    pub fn payload_str(&self) -> (r: &str)
        ensures
            r@ == self.payload@,
    {
        self.payload.as_str()
    }

    /// The topic this message is addressed to.
    pub fn topic(&self) -> (r: &str)
        ensures
            r@ == self.topic@,
    {
        self.topic.as_str()
    }
}

} // verus!
