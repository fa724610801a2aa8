use digital_twin::mqtt::parser::{
    json_candidate, json_get, parse_custom_tuple_list_at, parse_datetime, parse_datetime_at,
    parse_json_payload_at, parse_payload, parse_payload_at, parse_payload_with, split_value_and_unit, JsonKind, JsonNode, ParsedSample,
};
use digital_twin::time::Timestamp;

fn now() -> Timestamp {
    Timestamp { secs: 1_000, nanos: 5 }
}

fn str_node(s: &str) -> JsonNode {
    JsonNode { kind: JsonKind::Str(s.to_string()), text: format!("\"{s}\"") }
}

fn num_node(s: &str) -> JsonNode {
    JsonNode { kind: JsonKind::Number, text: s.to_string() }
}

fn obj_node(fields: Vec<(&str, JsonNode)>) -> JsonNode {
    JsonNode {
        kind: JsonKind::Object(fields.into_iter().map(|(k, v)| (k.to_string(), v)).collect()),
        text: "{}".to_string(),
    }
}

fn triple(s: &ParsedSample) -> (String, String, Timestamp) {
    (s.logical_topic.clone(), s.data_raw.clone(), s.ts)
}

#[test]
fn datetime_now_and_blank_mean_now() {
    assert_eq!(parse_datetime_at("now", now()), now());
    assert_eq!(parse_datetime_at("  \"NoW\" ", now()), now());
    assert_eq!(parse_datetime_at("", now()), now());
    assert_eq!(parse_datetime_at("\"\"", now()), now());
}

#[test]
fn datetime_reads_rfc3339_in_utc() {
    assert_eq!(parse_datetime_at("1970-01-01T00:00:10Z", now()), Timestamp { secs: 10, nanos: 0 });
    assert_eq!(
        parse_datetime_at("2026-01-11T10:00:00Z", now()),
        Timestamp { secs: 1_768_125_600, nanos: 0 }
    );
    assert_eq!(
        parse_datetime_at("1970-01-01T01:00:00.5+01:00", now()),
        Timestamp { secs: 0, nanos: 500_000_000 }
    );
}

#[test]
fn datetime_reads_epoch_seconds() {
    assert_eq!(parse_datetime_at("42", now()), Timestamp { secs: 42, nanos: 0 });
    assert_eq!(parse_datetime_at(" \"-5\" ", now()), Timestamp { secs: -5, nanos: 0 });
}

#[test]
fn datetime_garbage_and_out_of_range_mean_now() {
    assert_eq!(parse_datetime_at("yesterday", now()), now());
    assert_eq!(parse_datetime_at("9223372036854775807", now()), now());
}

#[test]
fn datetime_without_now_parses_fixed_instants() {
    assert_eq!(parse_datetime("100"), Timestamp { secs: 100, nanos: 0 });
}

#[test]
fn tuple_list_with_two_items() {
    let out = parse_custom_tuple_list_at(
        "{ ( topic: förderband1-4, data: 1.2V, datetime: now), ( topic: x, data: 2.0V, datetime: 2026-01-11T10:00:00Z ) }",
        "mqtt/in",
        now(),
    );
    let got: Vec<_> = out.iter().map(triple).collect();
    assert_eq!(
        got,
        vec![
            ("förderband1-4".to_string(), "1.2V".to_string(), now()),
            ("x".to_string(), "2.0V".to_string(), Timestamp { secs: 1_768_125_600, nanos: 0 }),
        ]
    );
}

#[test]
fn tuple_list_defaults_topic_and_skips_items_without_data() {
    let out = parse_custom_tuple_list_at("(value: \"7 rpm\"), (topic: a), (TOPIC: b, Data: 3)", "fallback", now());
    let got: Vec<_> = out.iter().map(triple).collect();
    assert_eq!(
        got,
        vec![
            ("fallback".to_string(), "7 rpm".to_string(), now()),
            ("b".to_string(), "3".to_string(), now()),
        ]
    );
}

#[test]
fn tuple_list_time_keys_and_empty_data() {
    let out = parse_custom_tuple_list_at("(data: , ts: 5), (data: 1, time: 7)", "t", now());
    let got: Vec<_> = out.iter().map(triple).collect();
    assert_eq!(got, vec![("t".to_string(), "1".to_string(), Timestamp { secs: 7, nanos: 0 })]);
}

#[test]
fn tuple_list_plain_value() {
    let out = parse_custom_tuple_list_at("23.5", "sensor/temp", now());
    assert!(out.is_empty());
    let out = parse_custom_tuple_list_at("data: 23.5", "sensor/temp", now());
    let got: Vec<_> = out.iter().map(triple).collect();
    assert_eq!(got, vec![("sensor/temp".to_string(), "23.5".to_string(), now())]);
}

#[test]
fn json_string_payload_is_one_sample() {
    let out = parse_json_payload_at(&str_node("1.5V"), "m/t", now());
    let got: Vec<_> = out.iter().map(triple).collect();
    assert_eq!(got, vec![("m/t".to_string(), "1.5V".to_string(), now())]);
}

#[test]
fn json_object_payload_reads_topic_data_and_time() {
    let v = obj_node(vec![
        ("topic", str_node("belt/speed")),
        ("value", num_node("450")),
        ("ts", str_node("1970-01-01T00:01:00Z")),
    ]);
    let out = parse_json_payload_at(&v, "m/t", now());
    let got: Vec<_> = out.iter().map(triple).collect();
    assert_eq!(got, vec![("belt/speed".to_string(), "450".to_string(), Timestamp { secs: 60, nanos: 0 })]);
}

#[test]
fn json_object_prefers_data_over_value_and_needs_one() {
    let v = obj_node(vec![("value", num_node("1")), ("data", str_node("2"))]);
    let got: Vec<_> = parse_json_payload_at(&v, "m", now()).iter().map(triple).collect();
    assert_eq!(got, vec![("m".to_string(), "2".to_string(), now())]);
    let v = obj_node(vec![("topic", str_node("x"))]);
    assert!(parse_json_payload_at(&v, "m", now()).is_empty());
}

#[test]
fn json_other_values_give_nothing() {
    let arr = JsonNode { kind: JsonKind::Array(vec![obj_node(vec![("data", num_node("1"))])]), text: "[{\"data\":1}]".to_string() };
    assert!(parse_json_payload_at(&arr, "m", now()).is_empty());
    let n = num_node("3");
    assert!(parse_json_payload_at(&n, "m", now()).is_empty());
    let null = JsonNode { kind: JsonKind::Null, text: "null".to_string() };
    assert!(parse_json_payload_at(&null, "m", now()).is_empty());
}

#[test]
fn json_get_finds_first_member() {
    let fields = vec![("a".to_string(), num_node("1")), ("a".to_string(), num_node("2"))];
    assert_eq!(json_get(&fields, "a").unwrap().text, "1");
    assert!(json_get(&fields, "b").is_none());
}

#[test]
fn json_candidate_recognises_json_shapes() {
    assert_eq!(json_candidate("  {\"a\":1} ").as_deref(), Some("{\"a\":1}"));
    assert_eq!(json_candidate("[1]").as_deref(), Some("[1]"));
    assert_eq!(json_candidate(" \"x\" ").as_deref(), Some("\"x\""));
    assert_eq!(json_candidate("( topic: a, data: 1 )"), None);
    assert_eq!(json_candidate("   "), None);
}

#[test]
fn payload_blank_gives_nothing() {
    assert!(parse_payload_with("  \n ", "t", None, now()).is_empty());
}

#[test]
fn payload_uses_json_when_it_parsed() {
    let out = parse_payload_with(" \"12.5\" ", "t", Some(str_node("12.5")), now());
    let got: Vec<_> = out.iter().map(triple).collect();
    assert_eq!(got, vec![("t".to_string(), "12.5".to_string(), now())]);
}

#[test]
fn payload_falls_back_to_tuple_list() {
    let out = parse_payload_with("{ (data: 1.2V) }", "t", None, now());
    let got: Vec<_> = out.iter().map(triple).collect();
    assert_eq!(got, vec![("t".to_string(), "1.2V".to_string(), now())]);
    let out = parse_payload_with("(topic: a, data: 9)", "t", Some(str_node("ignored")), now());
    let got: Vec<_> = out.iter().map(triple).collect();
    assert_eq!(got, vec![("a".to_string(), "9".to_string(), now())]);
}

#[test]
fn value_and_unit_examples() {
    assert_eq!(split_value_and_unit("1.2V"), (Some("1.2".to_string()), Some("V".to_string())));
    assert_eq!(split_value_and_unit("450 rpm"), (Some("450".to_string()), Some("rpm".to_string())));
    assert_eq!(split_value_and_unit("-10.0°C"), (Some("-10.0".to_string()), Some("°C".to_string())));
    assert_eq!(split_value_and_unit("23.5"), (Some("23.5".to_string()), None));
    assert_eq!(split_value_and_unit(" +3,25 bar "), (Some("+3.25".to_string()), Some("bar".to_string())));
}

#[test]
fn value_and_unit_rejects_text() {
    assert_eq!(split_value_and_unit("running"), (None, None));
    assert_eq!(split_value_and_unit(""), (None, None));
    assert_eq!(split_value_and_unit("1.2.3"), (Some("1.2".to_string()), Some(".3".to_string())));
}

#[test]
fn payload_text_is_read_as_json() {
    let out = parse_payload_at(" {\"topic\": \"belt/speed\", \"data\": 450} ", "m", now());
    let got: Vec<_> = out.iter().map(triple).collect();
    assert_eq!(got, vec![("belt/speed".to_string(), "450".to_string(), now())]);
}

#[test]
fn payload_text_that_is_not_json_uses_tuple_list() {
    let out = parse_payload_at("{ (topic: a, data: 1.2V) }", "m", now());
    let got: Vec<_> = out.iter().map(triple).collect();
    assert_eq!(got, vec![("a".to_string(), "1.2V".to_string(), now())]);
    assert!(parse_payload_at("   ", "m", now()).is_empty());
    let out = parse_payload("(topic: b, data: 3)", "m");
    assert_eq!(out.len(), 1);
    assert_eq!((out[0].logical_topic.as_str(), out[0].data_raw.as_str()), ("b", "3"));
}
