use digital_twin::mqtt::commands::Command;
use digital_twin::mqtt::events::{GatewayEvent, MachineFailureEvent, TelemetryEvent, Value};
use digital_twin::mqtt::properties::position::{self, PositionProperty};
use digital_twin::mqtt::properties::speed::{self, SpeedProperty};
use digital_twin::mqtt::properties::PropertyModel;
use digital_twin::mqtt::types::Severity;
use digital_twin::time::Timestamp;

fn number(topic: &str, n: &str, unit: Option<&str>, secs: i64) -> TelemetryEvent {
    TelemetryEvent {
        topic: topic.to_string(),
        data_raw: n.to_string(),
        value: Value::Number { number: n.to_string(), unit: unit.map(|u| u.to_string()) },
        ts: Timestamp { secs, nanos: 0 },
        source_mqtt_topic: "mqtt".to_string(),
    }
}

fn text(topic: &str, t: &str) -> TelemetryEvent {
    TelemetryEvent {
        topic: topic.to_string(),
        data_raw: t.to_string(),
        value: Value::Text(t.to_string()),
        ts: Timestamp { secs: 1, nanos: 0 },
        source_mqtt_topic: "mqtt".to_string(),
    }
}

#[test]
fn split_position_topics() {
    assert_eq!(position::split_asset_and_prop("belt-4/position"), ("belt-4".to_string(), true));
    assert_eq!(position::split_asset_and_prop("  line/belt-4/POS "), ("line/belt-4".to_string(), true));
    assert_eq!(position::split_asset_and_prop("belt-4/speed"), ("belt-4".to_string(), false));
    assert_eq!(position::split_asset_and_prop("position"), ("position".to_string(), false));
    assert_eq!(position::split_asset_and_prop("/pos"), ("".to_string(), true));
}

#[test]
fn split_speed_topics() {
    assert_eq!(speed::split_asset_and_prop("belt-4/speed"), ("belt-4".to_string(), true));
    assert_eq!(speed::split_asset_and_prop("belt-4/Rpm"), ("belt-4".to_string(), true));
    assert_eq!(speed::split_asset_and_prop("belt-4/pos"), ("belt-4".to_string(), false));
    assert_eq!(speed::split_asset_and_prop(" speed "), ("speed".to_string(), false));
}

#[test]
fn position_reads_back_telemetry() {
    let mut p = PositionProperty::new();
    p.update_from_telemetry(&number("belt-4/position", "12.5", Some("mm"), 3));
    let s = p.get("belt-4").unwrap();
    assert_eq!(s.value, "12.5");
    assert_eq!(s.unit.as_deref(), Some("mm"));
    assert_eq!(s.ts, Timestamp { secs: 3, nanos: 0 });
    p.update_from_telemetry(&number("belt-4/pos", "13", None, 4));
    assert_eq!(p.get("belt-4").unwrap().value, "13");
    assert_eq!(p.get("belt-4").unwrap().unit, None);
    assert_eq!(p.ids(), vec!["belt-4".to_string()]);
}

#[test]
fn position_ignores_other_topics_and_text() {
    let mut p = PositionProperty::default();
    p.update_from_telemetry(&number("belt-4/speed", "1", None, 1));
    p.update_from_telemetry(&text("belt-4/position", "stuck"));
    p.update_from_telemetry(&number("nopath", "1", None, 1));
    assert!(p.get("belt-4").is_none());
    assert!(p.ids().is_empty());
}

#[test]
fn position_set_manual() {
    let mut p = PositionProperty::new();
    p.set_manual_at("a", "1.0".to_string(), None, Timestamp { secs: 9, nanos: 0 });
    p.set_manual("b", "2.0".to_string(), Some("m".to_string()));
    assert_eq!(p.get("a").unwrap().ts, Timestamp { secs: 9, nanos: 0 });
    assert_eq!(p.get("b").unwrap().value, "2.0");
    let mut ids = p.ids();
    ids.sort();
    assert_eq!(ids, vec!["a".to_string(), "b".to_string()]);
}

#[test]
fn speed_reads_back_telemetry_and_makes_commands() {
    let mut s = SpeedProperty::new();
    s.update_from_telemetry(&number("belt-1/rpm", "450", Some("rpm"), 2));
    assert_eq!(s.get("belt-1").unwrap().value, "450");
    s.update_from_telemetry(&number("belt-1/position", "7", None, 2));
    assert_eq!(s.get("belt-1").unwrap().value, "450");
    match s.set_target_speed_cmd("förderband1-4", "0.75".to_string()) {
        Command::SetConveyorSpeed(c) => {
            assert_eq!(c.conveyor_id, "förderband1-4");
            assert_eq!(c.speed, "0.75");
        },
        other => panic!("unexpected {other:?}"),
    }
    assert_eq!(s.ids(), vec!["belt-1".to_string()]);
}

#[test]
fn model_applies_telemetry_to_each_property() {
    let mut m = PropertyModel::new();
    m.apply_telemetry(&number("x/position", "1", None, 1));
    m.apply_telemetry(&number("x/speed", "2", None, 1));
    assert_eq!(m.position.get("x").unwrap().value, "1");
    assert_eq!(m.speed.get("x").unwrap().value, "2");
}

#[test]
fn model_observes_events_in_order() {
    let mut m = PropertyModel::default();
    let failure = GatewayEvent::MachineFailure(MachineFailureEvent {
        machine_id: "x".to_string(),
        component: "c".to_string(),
        failure_code: None,
        severity: Severity::Critical,
        message: None,
        ts: Timestamp { secs: 0, nanos: 0 },
    });
    let evts = vec![
        GatewayEvent::Telemetry(number("x/pos", "1", None, 1)),
        failure,
        GatewayEvent::Telemetry(number("x/pos", "2", None, 2)),
        GatewayEvent::Telemetry(number("y/speed", "3", None, 3)),
    ];
    m.observe_all(&evts);
    assert_eq!(m.position.get("x").unwrap().value, "2");
    assert_eq!(m.position.get("x").unwrap().ts, Timestamp { secs: 2, nanos: 0 });
    assert_eq!(m.speed.get("y").unwrap().value, "3");
    assert!(m.speed.get("x").is_none());
    m.observe(&GatewayEvent::Telemetry(number("x/pos", "5", None, 5)));
    assert_eq!(m.position.get("x").unwrap().value, "5");
}
