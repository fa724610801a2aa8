use digital_twin::gateway::bridge::{
    broker_credentials, method_execute_topic, EVENT_TOPIC_FILTER, KEEP_ALIVE_SECS, PROPERTY_TOPIC_FILTER,
};
use digital_twin::gateway::downstream::{
    settings_from_json, variables_from_json, Configuration, IDownstream, Method, Property,
};
use digital_twin::keyed_map::KeyedMap;
use digital_twin::mqtt::downstream::MqttDownstreamConfig;
use digital_twin::mqtt::parser::{JsonKind, JsonNode};
use digital_twin::time::Duration;

fn config(user: &str, pass: &str) -> Configuration {
    Configuration {
        ipaddress: "127.0.0.1".to_string(),
        username: user.to_string(),
        password: pass.to_string(),
        settings: KeyedMap::new(),
    }
}

fn prop(ty: &str, json: &str) -> Property {
    Property { ty: ty.to_string(), value: JsonNode { kind: JsonKind::Number, text: json.to_string() } }
}

#[test]
fn downstream_starts_empty() {
    let d = IDownstream::new();
    assert!(d.configuration().is_none());
    assert!(d.method(&"m".to_string()).is_none());
    assert!(d.property(&"p".to_string()).is_none());
}

#[test]
fn downstream_configuration_is_replaced() {
    let mut d = IDownstream::new();
    d.set_configuration(config("a", "b"));
    d.set_configuration(config("user", "pass"));
    assert_eq!(d.configuration().unwrap().username, "user");
    let c = Configuration::default();
    assert_eq!(c.ipaddress, "");
    assert_eq!(c.settings.len(), 0);
}

#[test]
fn downstream_properties_upsert_get_remove() {
    let mut d = IDownstream::new();
    d.upsert_property("speed".to_string(), prop("float", "1.5"));
    d.upsert_property("speed".to_string(), prop("float", "2.5"));
    assert_eq!(d.property(&"speed".to_string()).unwrap().value.text, "2.5");
    let removed = d.remove_property(&"speed".to_string()).unwrap();
    assert_eq!(removed.ty, "float");
    assert!(d.property(&"speed".to_string()).is_none());
    assert!(d.remove_property(&"speed".to_string()).is_none());
}

#[test]
fn downstream_methods_and_execution() {
    let mut d = IDownstream::new();
    assert_eq!(d.execute_method(&"start".to_string()), Err("unknown method id: start".to_string()));
    let mut m = Method::default();
    m.variables.insert("rpm".to_string(), JsonNode { kind: JsonKind::Number, text: "10".to_string() });
    d.upsert_method("start".to_string(), m);
    assert_eq!(d.execute_method(&"start".to_string()), Ok(()));
    assert_eq!(d.method(&"start".to_string()).unwrap().variables.len(), 1);
    assert!(d.remove_method(&"start".to_string()).is_some());
    assert!(d.execute_method(&"start".to_string()).is_err());
}

#[test]
fn broker_credentials_need_a_user_name() {
    let mut d = IDownstream::new();
    assert_eq!(broker_credentials(&d), None);
    d.set_configuration(config("", "secret"));
    assert_eq!(broker_credentials(&d), None);
    d.set_configuration(config("user", "pass"));
    assert_eq!(broker_credentials(&d), Some(("user".to_string(), "pass".to_string())));
}

#[test]
fn bridge_topics() {
    assert_eq!(method_execute_topic("open"), "dt/method/open/execute");
    assert_eq!(EVENT_TOPIC_FILTER, "dt/+/event/+");
    assert_eq!(PROPERTY_TOPIC_FILTER, "dt/+/property/+");
    assert_eq!(KEEP_ALIVE_SECS, 30);
}

#[test]
fn downstream_config_credentials_need_both_parts() {
    let mut c = MqttDownstreamConfig {
        host: "localhost".to_string(),
        port: 1883,
        client_id: "gw".to_string(),
        username: Some("u".to_string()),
        password: None,
        keep_alive_secs: 15,
        subscribe_filter: "#".to_string(),
    };
    assert_eq!(c.credentials(), None);
    c.password = Some("p".to_string());
    assert_eq!(c.credentials(), Some(("u".to_string(), "p".to_string())));
    c.username = None;
    assert_eq!(c.credentials(), None);
    assert_eq!(c.keep_alive(), Duration { secs: 15, nanos: 0 });
}

fn obj(members: Vec<(&str, JsonNode)>) -> JsonNode {
    JsonNode {
        kind: JsonKind::Object(members.into_iter().map(|(k, v)| (k.to_string(), v)).collect()),
        text: "{}".to_string(),
    }
}

fn num(t: &str) -> JsonNode {
    JsonNode { kind: JsonKind::Number, text: t.to_string() }
}

#[test]
fn settings_from_object_members_or_default_key() {
    let m = settings_from_json(obj(vec![("qos", num("1")), ("retain", num("0")), ("qos", num("2"))]));
    assert_eq!(m.len(), 2);
    assert_eq!(m.get("qos").unwrap().text, "2");
    let m = settings_from_json(num("5"));
    assert_eq!(m.keys(), vec!["default".to_string()]);
    assert_eq!(m.get("default").unwrap().text, "5");
}

#[test]
fn variables_need_an_object() {
    let m = variables_from_json(obj(vec![("target", num("42"))])).unwrap();
    assert_eq!(m.get("target").unwrap().text, "42");
    assert!(variables_from_json(num("42")).is_none());
}
