use mqtt_verify::analyzers::Analyzer;
use mqtt_verify::errors::MqttVerifyError;
use mqtt_verify::scenario::Opt;
use mqtt_verify::scenario::make_cli_scenario;
use mqtt_verify::scenario::split_on_equal;

fn basic_options() -> Opt {
    Opt {
        publish_uri: "tcp://localhost:1883".to_string(),
        publishers: 1,
        total_count: 10,
        tick_interval_us: 1_000_000,
        topic: "1".to_string(),
        subscribe_uri: "tcp://localhost:1883".to_string(),
        initial_timeout_us: 1_000_000,
        reconnect_interval_us: None,
        parameters: Vec::new(),
    }
}

#[test]
fn make_cli_scenario_creates_soruces_with_expansion() {
    let mut opt = basic_options();
    opt.topic = "{{publisher}}".to_string();
    let scenario = make_cli_scenario(&opt).unwrap();
    assert_eq!(1, scenario.publishers.len());
    let publisher = scenario.publishers.get(0).unwrap();
    assert_eq!(1, publisher.sources.len());
    let source = publisher.sources.get(0).unwrap();
    assert_eq!("p-1".to_string(), source.topic.value().unwrap());
}

#[test]
fn make_cli_scenario_expands_from_parameter() {
    let mut opt = basic_options();
    opt.topic = "{{foo}}".to_string();
    opt.parameters = vec![("foo".to_string(), "bar".to_string())];
    let scenario = make_cli_scenario(&opt).unwrap();
    let publisher = scenario.publishers.get(0).unwrap();
    let source = publisher.sources.get(0).unwrap();
    assert_eq!("bar".to_string(), source.topic.value().unwrap());
}

#[test]
fn make_cli_scenario_builds_matching_sinks() {
    let mut opt = basic_options();
    opt.publishers = 2;
    opt.total_count = 5;
    let scenario = make_cli_scenario(&opt).unwrap();
    assert_eq!(1, scenario.subscribers.len());
    let subscriber = scenario.subscribers.get(0).unwrap();
    assert_eq!(vec!["1".to_string()], subscriber.topics);
    assert_eq!(2, subscriber.sinks.len());
    match subscriber.sinks.get(0).unwrap() {
        Analyzer::Filter(f) => {
            assert_eq!("1:", f.id);
            match f.child.as_ref() {
                Analyzer::Counting(c) => {
                    assert_eq!(0, c.count);
                    assert_eq!(5, c.expected_total);
                }
                _ => panic!("Expected a counter under the filter"),
            }
        }
        _ => panic!("Expected a session-id filter"),
    }
    match subscriber.sinks.get(1).unwrap() {
        Analyzer::Filter(f) => assert_eq!("2:", f.id),
        _ => panic!("Expected a session-id filter"),
    }
}

#[test]
fn make_cli_scenario_rejects_malformed_topic() {
    let mut opt = basic_options();
    opt.topic = "foo{{unterminated".to_string();
    match make_cli_scenario(&opt) {
        Err(MqttVerifyError::MalformedValue { value }) => {
            assert_eq!("foo{{unterminated", value);
        }
        _ => panic!("Expected a malformed value"),
    }
}

#[test]
fn split_on_equal_splits_at_first_equals() {
    assert_eq!(
        ("a".to_string(), "b=c".to_string()),
        split_on_equal("a=b=c").unwrap()
    );
    assert_eq!(
        ("key".to_string(), "value".to_string()),
        split_on_equal("key=value").unwrap()
    );
}

#[test]
fn split_on_equal_rejects_entry_without_equals() {
    match split_on_equal("novalue") {
        Err(MqttVerifyError::MalformedParameter { input }) => {
            assert_eq!("novalue", input);
        }
        _ => panic!("Expected a malformed parameter"),
    }
}
