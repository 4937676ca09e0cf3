use rumqttc::{Client, Connection, MqttOptions};
use synapsed::networking::mqtt::mqtt_config::{MqttConfig, MqttConfigCache};
use synapsed::networking::mqtt::mqtt_handler::{MqttError, MqttHandler, QualityOfService};
use synapsed::networking::mqtt::mqtt_parser::is_call_topic;
use synapsed::station::act::call::call_setup::{call_subtopic, subscribe_to_call_message};

fn client() -> (Client, Connection) {
    Client::new(MqttOptions::new("station-test", "localhost", 1883), 10)
}

fn sorted(mut v: Vec<String>) -> Vec<String> {
    v.sort();
    v
}

#[test]
fn config_defaults_take_the_hostname() {
    let (c, must_save) = MqttConfig::new(None, "door-1");
    assert!(must_save);
    assert_eq!(c.client_id(), "door-1");
    assert_eq!(c.get_broker_ip(), "127.0.0.1");
    assert_eq!(c.get_broker_port(), Ok(1883));
    assert_eq!(c.mqtt_topic_prefix(), "");
    assert_eq!(c.cache().id, "door-1");
}

#[test]
fn loaded_config_is_kept_and_id_follows_the_hostname() {
    let loaded = MqttConfigCache { id: "door-1".to_string(), broker_ip: "10.0.0.5".to_string(), broker_port: 8883 };
    let (c, must_save) = MqttConfig::new(Some(loaded), "door-1");
    assert!(!must_save);
    assert_eq!(c.get_broker_ip(), "10.0.0.5");
    assert_eq!(c.get_broker_port(), Ok(8883));

    let loaded = MqttConfigCache { id: "old".to_string(), broker_ip: "10.0.0.5".to_string(), broker_port: 8883 };
    let (c, must_save) = MqttConfig::new(Some(loaded), "door-2");
    assert!(must_save);
    assert_eq!(c.client_id(), "door-2");
    assert_eq!(c.cache().broker_port, 8883);
}

#[test]
fn port_over_65535_is_refused() {
    let loaded = MqttConfigCache { id: "h".to_string(), broker_ip: "b".to_string(), broker_port: 65536 };
    let (c, _) = MqttConfig::new(Some(loaded), "h");
    assert_eq!(c.get_broker_port(), Err(MqttError::InvalidPort));
    let loaded = MqttConfigCache { id: "h".to_string(), broker_ip: "b".to_string(), broker_port: 65535 };
    let (c, _) = MqttConfig::new(Some(loaded), "h");
    assert_eq!(c.get_broker_port(), Ok(65535));
}

#[test]
fn call_topics_are_recognised() {
    assert!(is_call_topic("call/3"));
    assert!(is_call_topic("site/broadcast"));
    assert!(is_call_topic("xcallx"));
    assert!(!is_call_topic("door/3"));
    assert!(!is_call_topic(""));
    assert!(!is_call_topic("CALL/3"));
}

#[test]
fn call_subtopic_spells_the_location() {
    assert_eq!(call_subtopic(7), "call/7");
    assert_eq!(call_subtopic(0), "call/0");
    assert_eq!(call_subtopic(-1), "call/-1");
    assert_eq!(call_subtopic(i32::MAX), "call/2147483647");
    assert_eq!(call_subtopic(i32::MIN), "call/-2147483648");
}

#[test]
fn subscriptions_are_recorded_once() {
    let (client, _connection) = client();
    let mut h = MqttHandler::new(client, "");
    assert!(h.get_subtopics().is_empty());
    assert_eq!(h.subscribe("call/1".to_string()), Ok(()));
    assert_eq!(h.subscribe("call/2".to_string()), Ok(()));
    assert_eq!(h.subscribe("call/1".to_string()), Ok(()));
    assert_eq!(sorted(h.get_subtopics()), vec!["call/1".to_string(), "call/2".to_string()]);
    assert_eq!(h.unsubscribe("call/1".to_string()), Ok(()));
    assert_eq!(h.get_subtopics(), vec!["call/2".to_string()]);
    assert_eq!(h.unsubscribe("never".to_string()), Ok(()));
    assert_eq!(h.get_subtopics(), vec!["call/2".to_string()]);
}

#[test]
fn invalid_topics_are_refused() {
    let (client, _connection) = client();
    let mut h = MqttHandler::new(client, "");
    assert_eq!(h.subscribe(String::new()), Err(MqttError::RequestFailed));
    assert!(h.get_subtopics().is_empty());
    assert_eq!(h.publish("call/+", "{}".to_string()), Err(MqttError::RequestFailed));
    assert_eq!(h.publish("call/#", "{}".to_string()), Err(MqttError::RequestFailed));
    assert_eq!(h.publish("call/4", "{}".to_string()), Ok(()));
}

#[test]
fn requests_fail_once_the_connection_is_gone() {
    let (client, connection) = client();
    drop(connection);
    let mut h = MqttHandler::new(client, "");
    assert_eq!(h.subscribe("call/1".to_string()), Err(MqttError::RequestFailed));
    assert!(h.get_subtopics().is_empty());
    assert_eq!(h.publish("call/1", "{}".to_string()), Err(MqttError::RequestFailed));
}

#[test]
fn location_change_replaces_every_subscription() {
    let (client, _connection) = client();
    let mut h = MqttHandler::new(client, "");
    h.subscribe("call/1".to_string()).unwrap();
    h.subscribe("broadcast".to_string()).unwrap();
    assert_eq!(subscribe_to_call_message(&mut h, 5), Ok(()));
    assert_eq!(h.get_subtopics(), vec!["call/5".to_string()]);
}

#[test]
fn requests_are_built_below_the_prefix() {
    let (client, _connection) = client();
    let h = MqttHandler::new(client, "site/");
    let (topic, qos) = h.subscription("call/3");
    assert_eq!(topic, "site/call/3");
    assert_eq!(qos, QualityOfService::AtMostOnce);
    let (topic, qos, retain, payload) = h.publication("call/device/4", "{}".to_string());
    assert_eq!(topic, "site/call/device/4");
    assert_eq!(qos, QualityOfService::AtLeastOnce);
    assert!(!retain);
    assert_eq!(payload, "{}");
}
