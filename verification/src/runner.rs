//! Per-actor decision logic of the publisher and subscriber runners.
//!
//! The asynchronous front end drives the MQTT client and hands every outcome
//! (a connect attempt, a publish result, an incoming item) to these
//! functions; they decide what happens next and which error surfaces. An
//! outside failure is passed in as the client library's description of the
//! cause.

use vstd::prelude::*;

use crate::analyzers::Analyzer;
use crate::analyzers::State;
use crate::errors::MqttVerifyError;
use crate::message::Message;

verus! {

/// What the connect loop does after one attempt.
#[derive(Debug, PartialEq, Eq, Structural)]
pub enum ConnectStep {
    Connected,
    Retry,
}

/// What the subscriber runner does with one item of the incoming stream.
#[derive(Debug, PartialEq, Eq, Structural)]
pub enum SubscriberAction {
    KeepConsuming,
    Stop,
}

/// The end of the initial connect budget that starts at `start_us`:
/// `start_us + timeout_us` microseconds, saturated at the clock's maximum.
pub fn connect_deadline(start_us: u64, timeout_us: u64) -> (r: u64)
    ensures
        start_us + timeout_us <= u64::MAX ==> r == start_us + timeout_us,
        start_us + timeout_us > u64::MAX ==> r == u64::MAX,
{
    if timeout_us <= u64::MAX - start_us {
        start_us + timeout_us
    } else {
        u64::MAX
    }
}

/// Decides one round of the connect loop: success connects; a failure before
/// the deadline is retried at once; a failure at or past the deadline gives
/// up with `MqttConnectError` carrying the attempt's cause.
pub fn connect_step(attempt: Result<(), String>, now_us: u64, deadline_us: u64) -> (r: Result<
    ConnectStep,
    MqttVerifyError,
>)
    ensures
        (match r {
            Ok(ConnectStep::Connected) => attempt is Ok,
            Ok(ConnectStep::Retry) => attempt is Err && now_us < deadline_us,
            Err(MqttVerifyError::MqttConnectError { detail }) => now_us >= deadline_us && attempt
                == Err::<(), String>(detail),
            Err(_) => false,
        }),
{
    match attempt {
        Ok(()) => Ok(ConnectStep::Connected),
        Err(e) => {
            if now_us < deadline_us {
                Ok(ConnectStep::Retry)
            } else {
                Err(MqttVerifyError::MqttConnectError { detail: e })
            }
        },
    }
}

/// Decides the fate of one publish: success is success; a failure while
/// reconnection is configured is absorbed (the message is dropped and later
/// ticks carry on); a failure without reconnection aborts the publisher with
/// `MqttPublishError` carrying the cause.
pub fn publish_outcome(result: Result<(), String>, reconnect: bool) -> (r: Result<
    (),
    MqttVerifyError,
>)
    ensures
        (match r {
            Ok(()) => result is Ok || reconnect,
            Err(MqttVerifyError::MqttPublishError { detail }) => !reconnect && result == Err::<
                (),
                String,
            >(detail),
            Err(_) => false,
        }),
{
    match result {
        Ok(()) => Ok(()),
        Err(e) => {
            if reconnect {
                Ok(())
            } else {
                Err(MqttVerifyError::MqttPublishError { detail: e })
            }
        },
    }
}

/// Maps the outcome of the graceful disconnect: a failure surfaces as
/// `MqttDisconnectError` carrying the cause.
pub fn disconnect_outcome(result: Result<(), String>) -> (r: Result<(), MqttVerifyError>)
    ensures
        (match r {
            Ok(()) => result is Ok,
            Err(MqttVerifyError::MqttDisconnectError { detail }) => result == Err::<(), String>(
                detail,
            ),
            Err(_) => false,
        }),
{
    match result {
        Ok(()) => Ok(()),
        Err(e) => Err(MqttVerifyError::MqttDisconnectError { detail: e }),
    }
}

/// Maps the outcome of a (re)subscription issued by the on-connected hook: a
/// failure surfaces as `MqttSubscribeError` carrying the cause.
pub fn subscribe_outcome(result: Result<(), String>) -> (r: Result<(), MqttVerifyError>)
    ensures
        (match r {
            Ok(()) => result is Ok,
            Err(MqttVerifyError::MqttSubscribeError { detail }) => result == Err::<(), String>(
                detail,
            ),
            Err(_) => false,
        }),
{
    match result {
        Ok(()) => Ok(()),
        Err(e) => Err(MqttVerifyError::MqttSubscribeError { detail: e }),
    }
}

/// Feeds one item of the incoming stream to the analyzer and decides what
/// the subscriber does next: an empty sentinel (a buffered connection-loss
/// marker) is skipped without touching the analyzer; a `Continue` verdict
/// keeps consuming; `Done` stops cleanly; a failure verdict aborts with the
/// analyzer's `VerificationFailure`.
pub fn subscriber_step(analyzer: &mut Analyzer, item: Option<Message>) -> (r: Result<
    SubscriberAction,
    MqttVerifyError,
>)
    ensures
        (match item {
            None => r == Ok::<SubscriberAction, MqttVerifyError>(SubscriberAction::KeepConsuming)
                && *final(analyzer) == *old(analyzer),
            Some(m) => {
                &&& *final(analyzer) == old(analyzer).stepped(m.payload@)
                &&& (match r {
                    Ok(SubscriberAction::KeepConsuming) => old(analyzer).spec_verdict(m.payload@)
                        == Ok::<State, Seq<char>>(State::Continue),
                    Ok(SubscriberAction::Stop) => old(analyzer).spec_verdict(m.payload@) == Ok::<
                        State,
                        Seq<char>,
                    >(State::Done),
                    Err(MqttVerifyError::VerificationFailure { reason }) => old(
                        analyzer,
                    ).spec_verdict(m.payload@) == Err::<State, Seq<char>>(reason@),
                    Err(_) => false,
                })
            },
        }),
{
    match item {
        None => Ok(SubscriberAction::KeepConsuming),
        Some(m) => match analyzer.analyze(m) {
            Err(e) => Err(e),
            Ok(State::Continue) => Ok(SubscriberAction::KeepConsuming),
            Ok(State::Done) => Ok(SubscriberAction::Stop),
        },
    }
}

} // verus!
