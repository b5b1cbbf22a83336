use mqtt_verify::analyzers::Analyzer;
use mqtt_verify::analyzers::CountingAnalyzer;
use mqtt_verify::analyzers::SessionIdFilter;
use mqtt_verify::analyzers::State;
use mqtt_verify::errors::MqttVerifyError;
use mqtt_verify::message::Message;

fn message(payload: &str) -> Message {
    Message::new("ze-topic".to_string(), payload.to_string(), 0)
}

/// A child that reports `Done` on the first message it is handed.
fn done_on_first() -> Box<Analyzer> {
    Box::new(Analyzer::Counting(CountingAnalyzer::new(1)))
}

#[test]
fn analyzers_session_id_filter() {
    let mut filter = SessionIdFilter::new("foo".to_string(), done_on_first());
    let processed_message = message("foo:...");
    let ignored_message = message("bar:...");
    assert_eq!(State::Done, filter.analyze(processed_message).unwrap());
    assert_eq!(State::Continue, filter.analyze(ignored_message).unwrap());
}

#[test]
fn analyzers_session_id_filter_prefix() {
    let mut filter = SessionIdFilter::new("foo".to_string(), done_on_first());
    let ignored_message = message("foobar:...");
    assert_eq!(State::Continue, filter.analyze(ignored_message).unwrap());
}

#[test]
fn counting_analyzer() {
    let mut analyzer = CountingAnalyzer::new(3);
    let msg = message("message");
    assert_eq!(State::Continue, analyzer.analyze(msg.clone()).unwrap());
    assert_eq!(State::Continue, analyzer.analyze(msg.clone()).unwrap());
    assert_eq!(State::Done, analyzer.analyze(msg.clone()).unwrap());
    match analyzer.analyze(message("1")) {
        Err(MqttVerifyError::VerificationFailure { reason: _ }) => (),
        _ => panic!("Expected a verification failure"),
    };
}

#[test]
fn counting_analyzer_failure_reason() {
    let mut analyzer = CountingAnalyzer::new(3);
    let msg = message("message");
    for _ in 0..3 {
        analyzer.analyze(msg.clone()).unwrap();
    }
    match analyzer.analyze(msg.clone()) {
        Err(MqttVerifyError::VerificationFailure { reason }) => {
            assert_eq!("Expected only 3 messages", reason);
        }
        _ => panic!("Expected a verification failure"),
    };
}

#[test]
fn filter_drops_foreign_sessions() {
    let mut filter = Analyzer::Filter(SessionIdFilter::new(
        "1".to_string(),
        Box::new(Analyzer::Counting(CountingAnalyzer::new(2))),
    ));
    assert_eq!(State::Continue, filter.analyze(message("2:1/2")).unwrap());
    assert_eq!(State::Continue, filter.analyze(message("2:2/2")).unwrap());
    assert_eq!(State::Continue, filter.analyze(message("1:1/2")).unwrap());
    assert_eq!(State::Done, filter.analyze(message("1:2/2")).unwrap());
}

#[test]
fn counting_verdict_sequence() {
    let mut analyzer = Analyzer::Counting(CountingAnalyzer::new(3));
    assert_eq!(State::Continue, analyzer.analyze(message("a")).unwrap());
    assert_eq!(State::Continue, analyzer.analyze(message("b")).unwrap());
    assert_eq!(State::Done, analyzer.analyze(message("c")).unwrap());
    match analyzer.analyze(message("d")) {
        Err(MqttVerifyError::VerificationFailure { reason }) => {
            assert_eq!("Expected only 3 messages", reason);
        }
        _ => panic!("Expected a verification failure"),
    };
}
