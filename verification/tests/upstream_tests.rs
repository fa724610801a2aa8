use digital_twin::mqtt::commands::{Command, CommandKind, ResetMachine, SetConveyorSpeed};
use digital_twin::mqtt::events::{GatewayEvent, Value};
use digital_twin::mqtt::types::{
    CounterDeviationData, EventEnvelope, MachineFailureData, MqttMessage, Qos, Severity, SourceInfo,
    WireEvent, WireEventPayload, EVENT_SCHEMA_V1,
};
use digital_twin::mqtt::upstream::{telemetry_value, DefaultUpstream, UpstreamConfig};
use digital_twin::time::Timestamp;

fn now() -> Timestamp {
    Timestamp { secs: 77, nanos: 0 }
}

fn upstream(prefix: Option<&str>) -> DefaultUpstream {
    DefaultUpstream::new(UpstreamConfig {
        command_prefix: "factory/cmd/".to_string(),
        structured_event_prefix: prefix.map(|p| p.to_string()),
    })
}

fn msg(topic: &str, payload: &str) -> MqttMessage {
    MqttMessage { topic: topic.to_string(), payload: payload.as_bytes().to_vec() }
}

fn failure_envelope(schema: &str, machine: &str) -> EventEnvelope {
    EventEnvelope {
        schema: schema.to_string(),
        id: Some("e-1".to_string()),
        ts: Timestamp { secs: 5, nanos: 0 },
        source: SourceInfo { machine_id: machine.to_string(), line: None, station: Some("s1".to_string()) },
        event: WireEvent::MachineFailure(MachineFailureData {
            component: "belt".to_string(),
            failure_code: Some("stuck".to_string()),
            severity: Severity::Error,
            message: None,
        }),
    }
}

fn deviation_envelope() -> EventEnvelope {
    EventEnvelope {
        schema: EVENT_SCHEMA_V1.to_string(),
        id: None,
        ts: Timestamp { secs: 6, nanos: 0 },
        source: SourceInfo { machine_id: "m2".to_string(), line: Some("l".to_string()), station: None },
        event: WireEvent::CounterDeviation(CounterDeviationData {
            counter_name: "parts".to_string(),
            expected: 10,
            actual: 7,
            tolerance: Some(1),
            severity: Severity::default(),
            message: Some("low".to_string()),
        }),
    }
}

const STRUCTURED_TEXT: &str = "{\"schema\":\"ft.events.v1\",\"event\":{\"kind\":\"machine_failure\"}}";

#[test]
fn schema_constant_and_default_severity() {
    assert_eq!(EVENT_SCHEMA_V1, "ft.events.v1");
    assert_eq!(Severity::default(), Severity::Info);
}

#[test]
fn payload_into_vec_keeps_order() {
    assert_eq!(WireEventPayload::One(deviation_envelope()).into_vec().len(), 1);
    let v = WireEventPayload::Many(vec![failure_envelope("a", "m1"), deviation_envelope()]).into_vec();
    assert_eq!(v[0].schema, "a");
    assert_eq!(v[1].source.machine_id, "m2");
}

#[test]
fn should_try_structured_without_prefix_looks_for_keys() {
    let u = upstream(None);
    assert!(u.should_try_structured("any", STRUCTURED_TEXT));
    assert!(!u.should_try_structured("any", "{\"schema\":1,\"event\":2}"));
    assert!(!u.should_try_structured("any", "schema event kind"));
}

#[test]
fn should_try_structured_with_prefix_looks_at_topic() {
    let u = upstream(Some("machines/events"));
    assert!(u.should_try_structured("machines/events/m1", "anything"));
    assert!(!u.should_try_structured("machines/telemetry", STRUCTURED_TEXT));
}

#[test]
fn structured_failure_becomes_machine_failure_event() {
    let u = upstream(None);
    let wire = WireEventPayload::One(failure_envelope(EVENT_SCHEMA_V1, "m1"));
    let evts = u.decode_events_at(&msg("x", STRUCTURED_TEXT), Some(wire), now());
    assert_eq!(evts.len(), 1);
    match &evts[0] {
        GatewayEvent::MachineFailure(f) => {
            assert_eq!(f.machine_id, "m1");
            assert_eq!(f.component, "belt");
            assert_eq!(f.failure_code.as_deref(), Some("stuck"));
            assert_eq!(f.severity, Severity::Error);
            assert_eq!(f.message, None);
            assert_eq!(f.ts, Timestamp { secs: 5, nanos: 0 });
        },
        other => panic!("unexpected {other:?}"),
    }
}

#[test]
fn structured_array_skips_other_schemas() {
    let u = upstream(None);
    let wire = WireEventPayload::Many(vec![
        failure_envelope("ft.events.v0", "old"),
        deviation_envelope(),
        failure_envelope(EVENT_SCHEMA_V1, "m3"),
    ]);
    let evts = u.decode_events_at(&msg("x", STRUCTURED_TEXT), Some(wire), now());
    assert_eq!(evts.len(), 2);
    match &evts[0] {
        GatewayEvent::CounterDeviation(d) => {
            assert_eq!(d.machine_id, "m2");
            assert_eq!(d.counter_name, "parts");
            assert_eq!((d.expected, d.actual, d.tolerance), (10, 7, Some(1)));
            assert_eq!(d.severity, Severity::Info);
            assert_eq!(d.message.as_deref(), Some("low"));
            assert_eq!(d.ts, Timestamp { secs: 6, nanos: 0 });
        },
        other => panic!("unexpected {other:?}"),
    }
    match &evts[1] {
        GatewayEvent::MachineFailure(f) => assert_eq!(f.machine_id, "m3"),
        other => panic!("unexpected {other:?}"),
    }
}

#[test]
fn structured_with_no_v1_envelope_falls_back_to_telemetry() {
    let u = upstream(None);
    let text = "{\"schema\":\"old\",\"event\":{\"kind\":\"x\"},\"data\":\"5 V\"}";
    let wire = WireEventPayload::One(failure_envelope("old", "m"));
    let evts = u.decode_events_at(&msg("plant/line", text), Some(wire), now());
    assert_eq!(evts.len(), 1);
    match &evts[0] {
        GatewayEvent::Telemetry(t) => {
            assert_eq!(t.topic, "plant/line");
            assert_eq!(t.data_raw, "5 V");
            assert_eq!(t.ts, now());
            assert_eq!(t.source_mqtt_topic, "plant/line");
            match &t.value {
                Value::Number { number, unit } => {
                    assert_eq!(number, "5");
                    assert_eq!(unit.as_deref(), Some("V"));
                },
                other => panic!("unexpected {other:?}"),
            }
        },
        other => panic!("unexpected {other:?}"),
    }
}

#[test]
fn prefix_outside_topic_ignores_structured_parse() {
    let u = upstream(Some("machines/events"));
    let wire = WireEventPayload::One(failure_envelope(EVENT_SCHEMA_V1, "m1"));
    let evts = u.decode_events_at(&msg("machines/telemetry", "(topic: belt/speed, data: 450 rpm)"), Some(wire), now());
    assert_eq!(evts.len(), 1);
    match &evts[0] {
        GatewayEvent::Telemetry(t) => {
            assert_eq!(t.topic, "belt/speed");
            assert_eq!(t.source_mqtt_topic, "machines/telemetry");
        },
        other => panic!("unexpected {other:?}"),
    }
}

#[test]
fn invalid_utf8_gives_no_event() {
    let u = upstream(None);
    let m = MqttMessage { topic: "t".to_string(), payload: vec![0x66, 0xff, 0x6f] };
    assert!(u.decode_events_at(&m, None, now()).is_empty());
    assert!(u.decode_events(&m, None).is_empty());
}

#[test]
fn tuple_list_gives_telemetry_per_item() {
    let u = upstream(None);
    let evts = u.decode_events_at(&msg("in", "{ (topic: a/pos, data: 1.5 mm), (topic: a/state, data: running) }"), None, now());
    assert_eq!(evts.len(), 2);
    match (&evts[0], &evts[1]) {
        (GatewayEvent::Telemetry(a), GatewayEvent::Telemetry(b)) => {
            assert!(matches!(&a.value, Value::Number { number, unit } if number == "1.5" && unit.as_deref() == Some("mm")));
            assert!(matches!(&b.value, Value::Text(t) if t == "running"));
        },
        other => panic!("unexpected {other:?}"),
    }
}

#[test]
fn telemetry_values() {
    assert!(matches!(telemetry_value(&"23.5".to_string()), Value::Number { number, unit: None } if number == "23.5"));
    assert!(matches!(telemetry_value(&"-1,5 °C".to_string()), Value::Number { number, unit } if number == "-1.5" && unit.as_deref() == Some("°C")));
    assert!(matches!(telemetry_value(&"open".to_string()), Value::Text(t) if t == "open"));
    assert!(matches!(telemetry_value(&"   ".to_string()), Value::Unknown));
    assert!(matches!(telemetry_value(&"٣ V".to_string()), Value::Text(t) if t == "٣ V"));
}

#[test]
fn commands_have_kinds_and_topics() {
    let reset = Command::ResetMachine(ResetMachine { machine_id: "m1".to_string() });
    let speed = Command::SetConveyorSpeed(SetConveyorSpeed { conveyor_id: "c".to_string(), speed: "1.5".to_string() });
    assert_eq!(reset.kind(), "reset_machine");
    assert_eq!(speed.kind(), "set_conveyor_speed");
    assert_eq!(reset.topic("factory/cmd"), "factory/cmd/reset_machine");
    assert_eq!(speed.topic("factory/cmd///"), "factory/cmd/set_conveyor_speed");
    assert_eq!(speed.topic(""), "/set_conveyor_speed");
}

#[test]
fn encode_command_builds_the_publish() {
    let u = upstream(None);
    let reset = Command::ResetMachine(ResetMachine { machine_id: "m1".to_string() });
    let p = u.encode_command(&reset, b"{}".to_vec());
    assert_eq!(p.topic, "factory/cmd/reset_machine");
    assert_eq!(p.payload, b"{}".to_vec());
    assert!(!p.retain);
    assert_eq!(p.qos, Qos::AtLeastOnce);
}
