use std::rc::Rc;

use mqtt_verify::context::ContextualValue;
use mqtt_verify::context::OverlayContext;
use mqtt_verify::context::precompile;
use mqtt_verify::errors::MqttVerifyError;

#[test]
fn context_precompile_text() {
    let compiled = precompile("foobar").unwrap();
    let value = ContextualValue::new(compiled, Rc::new(OverlayContext::root()));
    assert_eq!("foobar".to_string(), value.value().unwrap());
}

#[test]
fn context_precompile_expression() {
    let mut context = OverlayContext::root();
    context.insert("some".to_string(), "value".to_string());
    context.insert("other".to_string(), "stuff".to_string());
    let compiled = precompile("foo{{ some + other }}bar").unwrap();
    let value = ContextualValue::new(compiled, Rc::new(context));
    assert_eq!("foovaluestuffbar".to_string(), value.value().unwrap());
}

#[test]
fn overlay_context() {
    let mut root = OverlayContext::root();
    root.insert("foo".to_string(), "gazonk".to_string());
    root.insert("quux".to_string(), "bass".to_string());
    let root = Rc::new(root);
    let mut child1 = OverlayContext::subcontext(root.clone());
    let mut child2 = OverlayContext::subcontext(root.clone());
    child1.insert("foo".to_string(), "bar".to_string());
    child2.insert("bar".to_string(), "baz".to_string());
    assert_eq!(Some(&"bar".to_string()), child1.get_value("foo"));
    assert_eq!(Some(&"gazonk".to_string()), child2.get_value("foo"));
}

#[test]
fn overlay_context_walks_to_parent() {
    let mut root = OverlayContext::root();
    root.insert("quux".to_string(), "bass".to_string());
    let child = OverlayContext::subcontext(Rc::new(root));
    assert_eq!(Some(&"bass".to_string()), child.get_value("quux"));
    assert_eq!(None, child.get_value("missing"));
}

#[test]
fn template_round_trip() {
    let mut context = OverlayContext::root();
    context.insert("a".to_string(), "X".to_string());
    context.insert("b".to_string(), "Y".to_string());
    let value = OverlayContext::value_for(Rc::new(context), "foo{{a+b}}bar").unwrap();
    assert_eq!("fooXYbar".to_string(), value.value().unwrap());
}

#[test]
fn precompile_unterminated_hole() {
    match precompile("foo{{unterminated") {
        Err(MqttVerifyError::MalformedValue { value }) => {
            assert_eq!("foo{{unterminated", value);
        }
        _ => panic!("Expected a malformed value"),
    }
}

#[test]
fn precompile_bad_expression() {
    match precompile("foo{{)}}bar") {
        Err(MqttVerifyError::MalformedExpression { value, source: _ }) => {
            assert_eq!("foo{{)}}bar", value);
        }
        _ => panic!("Expected a malformed expression"),
    }
}

#[test]
fn evaluation_fails_on_unbound_name() {
    let value =
        OverlayContext::value_for(Rc::new(OverlayContext::root()), "{{missing}}").unwrap();
    assert_eq!(None, value.value());
}

#[test]
fn adjacent_holes_and_empty_segments() {
    let mut context = OverlayContext::root();
    context.insert("a".to_string(), "1".to_string());
    context.insert("b".to_string(), "2".to_string());
    let value = OverlayContext::value_for(Rc::new(context), "{{a}}{{b}}").unwrap();
    assert_eq!("12".to_string(), value.value().unwrap());
}
