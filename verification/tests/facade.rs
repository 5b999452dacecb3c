use mqtt_facade::paho::{ConnectAction, Paho, Qos};
use mqtt_facade::traits::{MqttError, Parameters};

fn fresh_facade() -> Paho {
    Paho::new(Parameters::default())
}

#[test]
fn default_parameters_use_local_broker() {
    let params = Parameters::default();
    assert_eq!(params.host, "mqtt://localhost:1883");
}

#[test]
fn new_facade_has_first_connect_ahead() {
    let p = fresh_facade();
    assert!(p.first_connect());
    assert_eq!(p.host(), "mqtt://localhost:1883");
    let opts = p.opts();
    assert_eq!(opts.user_name, "testuser");
    assert_eq!(opts.password, "testpassword");
    assert!(opts.clean_session);
}

#[test]
fn first_use_attempts_exactly_one_connect() {
    let p = fresh_facade();
    assert_eq!(p.try_connect_action(false), ConnectAction::Attempt);
    assert_eq!(p.try_connect_action(true), ConnectAction::Proceed);
}

#[test]
fn failed_first_connect_reports_and_allows_retry() {
    let mut p = fresh_facade();
    assert_eq!(p.try_connect_action(false), ConnectAction::Attempt);
    let r = p.record_first_connect(Err("connection refused".to_string()));
    match r {
        Err(MqttError::ConnectionFailed(m)) => {
            assert_eq!(m, "Failed to connect to MQTT broker: connection refused");
        }
        other => panic!("expected ConnectionFailed, got {other:?}"),
    }
    assert!(p.first_connect());
    assert_eq!(p.try_connect_action(false), ConnectAction::Attempt);
}

#[test]
fn successful_first_connect_is_one_shot() {
    let mut p = fresh_facade();
    assert_eq!(p.try_connect_action(false), ConnectAction::Attempt);
    let r = p.record_first_connect(Ok(()));
    assert!(r.is_ok());
    assert!(!p.first_connect());
    assert_eq!(p.try_connect_action(false), ConnectAction::Refuse);
    let e = p.refuse_error();
    match e {
        MqttError::ConnectionFailed(m) => {
            assert_eq!(m, "Failed to connect to MQTT broker");
        }
        other => panic!("expected ConnectionFailed, got {other:?}"),
    }
}

#[test]
fn explicit_connect_keeps_the_flag() {
    let mut p = fresh_facade();
    assert!(p.connect(Ok(())).is_ok());
    assert!(p.first_connect());
    let r = p.connect(Err("no route to host".to_string()));
    match r {
        Err(MqttError::ConnectionFailed(m)) => {
            assert_eq!(m, "Failed to connect to MQTT broker: no route to host");
        }
        other => panic!("expected ConnectionFailed, got {other:?}"),
    }
    assert!(p.first_connect());
}

#[test]
fn connect_to_unreachable_default_host_reports_detail() {
    let mut p = fresh_facade();
    assert_eq!(p.host(), "mqtt://localhost:1883");
    let r = p.connect(Err(
        "TCP/TLS connect failure: mqtt://localhost:1883".to_string()
    ));
    match r {
        Err(MqttError::ConnectionFailed(m)) => {
            assert_eq!(
                m,
                "Failed to connect to MQTT broker: TCP/TLS connect failure: mqtt://localhost:1883"
            );
            assert!(m.contains("mqtt://localhost:1883"));
        }
        other => panic!("expected ConnectionFailed, got {other:?}"),
    }
}

#[test]
fn subscribe_requests_differ_only_by_topic() {
    let p = fresh_facade();
    let empty = p.subscribe_request("");
    let nested = p.subscribe_request("a/b");
    assert_eq!(empty.topic, "");
    assert_eq!(nested.topic, "a/b");
    assert_eq!(empty.qos, Qos::AtMostOnce);
    assert_eq!(nested.qos, Qos::AtMostOnce);
}

#[test]
fn subscribe_failure_names_topic() {
    let p = fresh_facade();
    for topic in ["", "a/b"] {
        let r = p.subscribe_outcome(topic, Err("broker closed".to_string()));
        match r {
            Err(MqttError::SubscriptionFailed(m)) => {
                assert_eq!(
                    m,
                    format!("Failed to subscribe to topic {topic}: broker closed")
                );
                assert!(m.contains(topic));
            }
            other => panic!("expected SubscriptionFailed, got {other:?}"),
        }
    }
    assert!(p.subscribe_outcome("a/b", Ok(())).is_ok());
}

#[test]
fn publish_keeps_payload_bytes_exactly() {
    let p = fresh_facade();
    let empty = p.publish_message("t", &[]);
    assert_eq!(empty.topic, "t");
    assert_eq!(empty.payload, Vec::<u8>::new());
    assert_eq!(empty.qos, Qos::AtMostOnce);
    let small = p.publish_message("t", &[1, 2, 3]);
    assert_eq!(small.topic, "t");
    assert_eq!(small.payload, vec![1, 2, 3]);
    assert_eq!(small.qos, Qos::AtMostOnce);
}

#[test]
fn publish_succeeds_when_connected() {
    let mut p = fresh_facade();
    assert!(p.record_first_connect(Ok(())).is_ok());
    assert_eq!(p.try_connect_action(true), ConnectAction::Proceed);
    assert!(p.publish_outcome("t", Ok(())).is_ok());
}

#[test]
fn publish_failure_names_topic() {
    let p = fresh_facade();
    let r = p.publish_outcome("sensors/1", Err("client is not connected".to_string()));
    match r {
        Err(MqttError::PublishFailed(m)) => {
            assert_eq!(
                m,
                "Failed to publish message to topic sensors/1: client is not connected"
            );
            assert!(m.contains("sensors/1"));
        }
        other => panic!("expected PublishFailed, got {other:?}"),
    }
}

#[test]
fn qos_levels_have_wire_values() {
    assert_eq!(Qos::AtMostOnce.level(), 0);
    assert_eq!(Qos::AtLeastOnce.level(), 1);
    assert_eq!(Qos::ExactlyOnce.level(), 2);
}
