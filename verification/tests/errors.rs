use mqtt_verify::errors::MqttVerifyError;

#[test]
fn error_descriptions_are_exact() {
    let e = MqttVerifyError::MalformedParameter {
        input: "x".to_string(),
    };
    assert_eq!("Expected x to be on format X=Y", e.description());
    let e = MqttVerifyError::MqttConnectError {
        detail: "refused".to_string(),
    };
    assert_eq!("Connect borked: refused", e.description());
    let e = MqttVerifyError::MalformedValue {
        value: "a{{".to_string(),
    };
    assert_eq!("Malformed value a{{", e.description());
    let e = MqttVerifyError::VerificationFailure {
        reason: "nope".to_string(),
    };
    assert_eq!("Verification failed: nope", e.description());
}

#[test]
fn malformed_expression_description_names_the_cause() {
    let e = match mqtt_verify::context::precompile("foo{{)}}bar") {
        Err(e) => e,
        _ => panic!("Expected a malformed expression"),
    };
    let description = e.description();
    let prefix = "Malformed expression in value foo{{)}}bar: ";
    assert!(description.starts_with(prefix));
    assert!(description.len() > prefix.len());
}
