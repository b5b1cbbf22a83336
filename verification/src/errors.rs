use vstd::prelude::*;

verus! {

/// The error taxonomy of the scenario engine.
///
/// Configuration errors (`MalformedParameter`, `MalformedValue`,
/// `MalformedExpression`) are reported when a scenario is built; the broker
/// errors carry the client library's description of the underlying cause as
/// reported by the transport front end; `VerificationFailure` carries an
/// analyzer's reason for a negative verdict.
#[derive(Debug)]
pub enum MqttVerifyError {
    /// A `--parameter` entry lacks an `=` separator.
    MalformedParameter { input: String },
    /// The tick timer driving a source failed.
    SourceTimerError { detail: String },
    /// The broker could not be reached within the initial connect budget.
    MqttConnectError { detail: String },
    /// The session could not be closed gracefully.
    MqttDisconnectError { detail: String },
    /// A publish failed while reconnection was not configured.
    MqttPublishError { detail: String },
    /// A subscription could not be established.
    MqttSubscribeError { detail: String },
    /// A template holds an unmatched `{{`, or a value failed to parse.
    MalformedValue { value: String },
    /// A template's expression body failed to parse.
    MalformedExpression { value: String, source: evalexpr::EvalexprError },
    /// An analyzer rendered a negative verdict.
    VerificationFailure { reason: String },
}

impl MqttVerifyError {
    /// The human-readable description of this error.
    pub open spec fn spec_description(self) -> Seq<char> {
        match self {
            MqttVerifyError::MalformedParameter { input } => "Expected "@ + input@
                + " to be on format X=Y"@,
            MqttVerifyError::SourceTimerError { detail } => "Timer borked: "@ + detail@,
            MqttVerifyError::MqttConnectError { detail } => "Connect borked: "@ + detail@,
            MqttVerifyError::MqttDisconnectError { detail } => "Disconnect borked: "@ + detail@,
            MqttVerifyError::MqttPublishError { detail } => "Publish borked: "@ + detail@,
            MqttVerifyError::MqttSubscribeError { detail } => "Subscribe borked: "@ + detail@,
            MqttVerifyError::MalformedValue { value } => "Malformed value "@ + value@,
            MqttVerifyError::MalformedExpression { value, source: _ } => (
            "Malformed expression in value "@ + value@ + ": "@),
            MqttVerifyError::VerificationFailure { reason } => "Verification failed: "@ + reason@,
        }
    }

    /// Describes the error for an operator, naming the wrapped cause where
    /// one is carried. For `MalformedExpression` the description ends with
    /// the expression engine's own text for the cause, of which the contract
    /// says nothing; every other variant's text is pinned exactly.
    pub fn description(&self) -> (r: String)
        ensures
            self.spec_description().is_prefix_of(r@),
            !(self matches MqttVerifyError::MalformedExpression { .. }) ==> r@
                == self.spec_description(),
    {
        let mut s = String::new();
        match self {
            MqttVerifyError::MalformedParameter { input } => {
                s.append("Expected ");
                s.append(input.as_str());
                s.append(" to be on format X=Y");
            },
            MqttVerifyError::SourceTimerError { detail } => {
                s.append("Timer borked: ");
                s.append(detail.as_str());
            },
            MqttVerifyError::MqttConnectError { detail } => {
                s.append("Connect borked: ");
                s.append(detail.as_str());
            },
            MqttVerifyError::MqttDisconnectError { detail } => {
                s.append("Disconnect borked: ");
                s.append(detail.as_str());
            },
            MqttVerifyError::MqttPublishError { detail } => {
                s.append("Publish borked: ");
                s.append(detail.as_str());
            },
            MqttVerifyError::MqttSubscribeError { detail } => {
                s.append("Subscribe borked: ");
                s.append(detail.as_str());
            },
            MqttVerifyError::MalformedValue { value } => {
                s.append("Malformed value ");
                s.append(value.as_str());
            },
            MqttVerifyError::MalformedExpression { value, source } => {
                s.append("Malformed expression in value ");
                s.append(value.as_str());
                s.append(": ");
                let cause = crate::expr::error_text(source);
                s.append(cause.as_str());
            },
            MqttVerifyError::VerificationFailure { reason } => {
                s.append("Verification failed: ");
                s.append(reason.as_str());
            },
        }
        s
    }
}

} // verus!
