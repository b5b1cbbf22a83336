use std::rc::Rc;

use mqtt_verify::context::ContextualValue;
use mqtt_verify::context::OverlayContext;
use mqtt_verify::expr::build_tree;
use mqtt_verify::source::VerifiableSource;

fn ze_topic() -> ContextualValue {
    ContextualValue::new(
        build_tree("\"ze-topic\"").unwrap(),
        Rc::new(OverlayContext::root()),
    )
}

#[test]
fn verifiable_source_topic() {
    let mut source = VerifiableSource::new("id".to_string(), ze_topic(), 1, 1_000_000);
    assert_eq!("ze-topic", source.next_message().unwrap().topic());
}

#[test]
fn verifiable_source_iteration() {
    let mut source = VerifiableSource::new("id".to_string(), ze_topic(), 2, 1_000_000);
    assert_eq!("id:1/2", source.next_message().unwrap().payload_str());
    assert_eq!("id:2/2", source.next_message().unwrap().payload_str());
    assert!(source.next_message().is_none());
}

#[test]
fn verifiable_source_payloads_are_exact() {
    let mut source = VerifiableSource::new("7".to_string(), ze_topic(), 3, 1_000_000);
    let mut payloads: Vec<String> = Vec::new();
    while let Some(message) = source.next_message() {
        payloads.push(message.payload_str().to_string());
    }
    assert_eq!(vec!["7:1/3", "7:2/3", "7:3/3"], payloads);
}

#[test]
fn source_stalls_when_topic_cannot_evaluate() {
    let topic = ContextualValue::new(
        build_tree("missing").unwrap(),
        Rc::new(OverlayContext::root()),
    );
    let mut source = VerifiableSource::new("id".to_string(), topic, 2, 1_000_000);
    assert!(source.next_message().is_none());
}
