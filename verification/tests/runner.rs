use mqtt_verify::analyzers::Analyzer;
use mqtt_verify::analyzers::CountingAnalyzer;
use mqtt_verify::errors::MqttVerifyError;
use mqtt_verify::message::Message;
use mqtt_verify::runner::ConnectStep;
use mqtt_verify::runner::SubscriberAction;
use mqtt_verify::runner::connect_deadline;
use mqtt_verify::runner::connect_step;
use mqtt_verify::runner::disconnect_outcome;
use mqtt_verify::runner::publish_outcome;
use mqtt_verify::runner::subscribe_outcome;
use mqtt_verify::runner::subscriber_step;

fn message(payload: &str) -> Message {
    Message::new("ze-topic".to_string(), payload.to_string(), 0)
}

#[test]
fn connect_retries_until_deadline() {
    let deadline = connect_deadline(0, 1_000_000);
    assert_eq!(1_000_000, deadline);
    assert_eq!(
        ConnectStep::Retry,
        connect_step(Err("refused".to_string()), 999_999, deadline).unwrap()
    );
    assert_eq!(
        ConnectStep::Connected,
        connect_step(Ok(()), 999_999, deadline).unwrap()
    );
}

#[test]
fn connect_gives_up_at_deadline() {
    match connect_step(Err("refused".to_string()), 1_000_000, 1_000_000) {
        Err(MqttVerifyError::MqttConnectError { detail }) => assert_eq!("refused", detail),
        _ => panic!("Expected a connect error"),
    }
}

#[test]
fn connect_deadline_saturates() {
    assert_eq!(u64::MAX, connect_deadline(u64::MAX - 1, 2));
}

#[test]
fn publish_failure_aborts_without_reconnect() {
    match publish_outcome(Err("broker gone".to_string()), false) {
        Err(MqttVerifyError::MqttPublishError { detail }) => assert_eq!("broker gone", detail),
        _ => panic!("Expected a publish error"),
    }
}

#[test]
fn publish_failure_is_absorbed_with_reconnect() {
    assert!(publish_outcome(Err("broker gone".to_string()), true).is_ok());
    assert!(publish_outcome(Ok(()), false).is_ok());
}

#[test]
fn disconnect_failure_surfaces() {
    assert!(disconnect_outcome(Ok(())).is_ok());
    match disconnect_outcome(Err("hung".to_string())) {
        Err(MqttVerifyError::MqttDisconnectError { detail }) => assert_eq!("hung", detail),
        _ => panic!("Expected a disconnect error"),
    }
}

#[test]
fn subscribe_failure_surfaces() {
    assert!(subscribe_outcome(Ok(())).is_ok());
    match subscribe_outcome(Err("denied".to_string())) {
        Err(MqttVerifyError::MqttSubscribeError { detail }) => assert_eq!("denied", detail),
        _ => panic!("Expected a subscribe error"),
    }
}

#[test]
fn subscriber_terminates_on_done() {
    let mut analyzer = Analyzer::Counting(CountingAnalyzer::new(1));
    assert_eq!(
        SubscriberAction::Stop,
        subscriber_step(&mut analyzer, Some(message("payload"))).unwrap()
    );
}

#[test]
fn subscriber_skips_empty_sentinels_and_keeps_consuming() {
    let mut analyzer = Analyzer::Counting(CountingAnalyzer::new(2));
    assert_eq!(
        SubscriberAction::KeepConsuming,
        subscriber_step(&mut analyzer, None).unwrap()
    );
    assert_eq!(
        SubscriberAction::KeepConsuming,
        subscriber_step(&mut analyzer, Some(message("a"))).unwrap()
    );
    assert_eq!(
        SubscriberAction::Stop,
        subscriber_step(&mut analyzer, Some(message("b"))).unwrap()
    );
    match subscriber_step(&mut analyzer, Some(message("c"))) {
        Err(MqttVerifyError::VerificationFailure { reason }) => {
            assert_eq!("Expected only 2 messages", reason);
        }
        _ => panic!("Expected a verification failure"),
    }
}
