use digital_twin::database::datapoint::{
    type_compatible, DataPointId, DataPointMeta, DataPointRegistry, QualifiedName, RegistryError, Schema,
    TimedValue, Value, ValueType,
};
use digital_twin::keyed_map::KeyedMap;

fn meta(id: &str, name: &str, ty: ValueType) -> DataPointMeta {
    DataPointMeta {
        id: DataPointId::new(id),
        name: QualifiedName::new(name),
        declared_type: ty,
        unit: Some("mm".to_string()),
        description: None,
        tags: KeyedMap::new(),
        source: None,
        constraints: None,
    }
}

fn at(ms: i64, value: Value) -> TimedValue {
    TimedValue { ts_millis: ms, value }
}

fn is_type(t: &ValueType, expected: &str) -> bool {
    format!("{t:?}") == expected
}

#[test]
fn value_types() {
    assert!(is_type(&Value::Null.value_type(), "Null"));
    assert!(is_type(&Value::F64(1.5f64.to_bits()).value_type(), "F64"));
    assert!(is_type(&Value::String("a".to_string()).value_type(), "String"));
    assert!(is_type(&Value::Array(vec![Value::I64(1), Value::Bool(true)]).value_type(), "Object"));
    assert!(is_type(&Value::Array(vec![Value::I64(1), Value::String("a".to_string())]).value_type(), "Object"));
    assert!(is_type(&Value::Array(vec![Value::I64(1), Value::I64(2)]).value_type(), "Array(I64)"));
    assert!(is_type(
        &Value::Array(vec![Value::Array(vec![Value::Bool(true)]), Value::Array(vec![Value::Bool(false)])]).value_type(),
        "Array(Array(Bool))"
    ));
    assert!(is_type(&Value::Array(vec![Value::Array(vec![]), Value::Array(vec![Value::Null])]).value_type(), "Array(Array(Null))"));
    assert!(is_type(&Value::Array(vec![]).value_type(), "Array(Null)"));
    assert!(is_type(&Value::Object(KeyedMap::new()).value_type(), "Object"));
    assert!(is_type(&Value::TimestampMillis(5).value_type(), "TimestampMillis"));
}

#[test]
fn compatibility_rules() {
    assert!(type_compatible(&ValueType::I64, &ValueType::I64));
    assert!(type_compatible(&ValueType::F64, &ValueType::I64));
    assert!(type_compatible(&ValueType::F64, &ValueType::U64));
    assert!(!type_compatible(&ValueType::I64, &ValueType::F64));
    assert!(type_compatible(&ValueType::Decimal { precision: 10, scale: 2 }, &ValueType::Null));
    assert!(!type_compatible(&ValueType::Null, &ValueType::Bool));
    assert!(type_compatible(&ValueType::Array(Box::new(ValueType::F64)), &ValueType::Array(Box::new(ValueType::U64))));
    assert!(!type_compatible(&ValueType::Array(Box::new(ValueType::Bool)), &ValueType::Array(Box::new(ValueType::U64))));
    assert!(!type_compatible(&ValueType::Custom("x".to_string()), &ValueType::Custom("x".to_string())));
    assert!(!type_compatible(&ValueType::Decimal { precision: 1, scale: 0 }, &ValueType::Decimal { precision: 1, scale: 0 }));
}

#[test]
fn set_value_then_read_back() {
    let mut r = DataPointRegistry::new();
    r.upsert_meta(meta("dp1", "line.belt.position", ValueType::F64));
    assert!(r.get_by_id(&DataPointId::new("dp1")).unwrap().current.is_none());
    r.set_value(DataPointId::new("dp1"), at(10, Value::I64(3)), false, None, KeyedMap::new()).unwrap();
    let s = r.get_by_name(&QualifiedName::new("line.belt.position")).unwrap();
    let cur = s.current.as_ref().unwrap();
    assert_eq!(cur.ts_millis, 10);
    assert!(matches!(cur.value, Value::I64(3)));
    assert_eq!(s.meta.unit.as_deref(), Some("mm"));
}

#[test]
fn set_value_type_mismatch_keeps_state() {
    let mut r = DataPointRegistry::new();
    r.upsert_meta(meta("dp1", "n1", ValueType::Bool));
    r.set_value(DataPointId::new("dp1"), at(1, Value::Bool(true)), false, None, KeyedMap::new()).unwrap();
    match r.set_value(DataPointId::new("dp1"), at(2, Value::String("x".to_string())), true, None, KeyedMap::new()) {
        Err(RegistryError::TypeMismatch { name, declared, actual }) => {
            assert_eq!(name, QualifiedName::new("n1"));
            assert!(is_type(&declared, "Bool"));
            assert!(is_type(&actual, "String"));
        },
        other => panic!("unexpected {other:?}"),
    }
    let cur = r.get_by_id(&DataPointId::new("dp1")).unwrap().current.as_ref().unwrap();
    assert_eq!(cur.ts_millis, 1);
}

#[test]
fn set_value_unknown_id() {
    let mut r = DataPointRegistry::new();
    match r.set_value(DataPointId::new("nope"), at(1, Value::Null), false, None, KeyedMap::new()) {
        Err(RegistryError::UnknownId(id)) => assert_eq!(id, DataPointId::new("nope")),
        other => panic!("unexpected {other:?}"),
    }
    assert!(r.get_by_id(&DataPointId::new("nope")).is_none());
    assert!(r.list_ids().is_empty());
}

#[test]
fn set_value_auto_defines() {
    let mut r = DataPointRegistry::new();
    let mut tags = KeyedMap::new();
    tags.insert("origin".to_string(), "gateway".to_string());
    r.set_value(DataPointId::new("auto"), at(5, Value::U64(9)), true, None, tags).unwrap();
    let s = r.get_by_name(&QualifiedName::new("auto")).unwrap();
    assert!(is_type(&s.meta.declared_type, "U64"));
    assert_eq!(s.meta.tags.get("origin").map(|t| t.as_str()), Some("gateway"));
    assert!(s.meta.unit.is_none());
    r.set_value(DataPointId::new("named"), at(6, Value::Null), true, Some(QualifiedName::new("plant.named")), KeyedMap::new())
        .unwrap();
    assert!(r.get_by_name(&QualifiedName::new("plant.named")).is_some());
    assert!(r.get_by_name(&QualifiedName::new("named")).is_none());
    let mut ids = r.list_ids();
    ids.sort();
    assert_eq!(ids, vec!["auto".to_string(), "named".to_string()]);
    let listed: Vec<String> = r.list().iter().map(|s| s.meta.id.0.clone()).collect();
    assert_eq!(listed, r.list_ids());
    assert!(r.list().iter().all(|s| s.current.is_some()));
}

#[test]
fn upsert_meta_keeps_current_value() {
    let mut r = DataPointRegistry::new();
    r.upsert_meta(meta("dp", "old", ValueType::I64));
    r.set_value(DataPointId::new("dp"), at(1, Value::I64(7)), false, None, KeyedMap::new()).unwrap();
    r.upsert_meta(meta("dp", "new", ValueType::F64));
    let s = r.get_by_name(&QualifiedName::new("new")).unwrap();
    assert!(matches!(s.current.as_ref().unwrap().value, Value::I64(7)));
    assert!(is_type(&s.meta.declared_type, "F64"));
    assert!(r.get_by_name(&QualifiedName::new("old")).is_some());
}

#[test]
fn apply_schema_registers_each_definition() {
    let mut r = DataPointRegistry::new();
    r.apply_schema(Schema {
        namespace: Some("plant".to_string()),
        datapoints: vec![meta("a", "na", ValueType::Bool), meta("b", "nb", ValueType::I64), meta("a", "na2", ValueType::String)],
        version: None,
    });
    assert!(is_type(&r.get_by_id(&DataPointId::new("a")).unwrap().meta.declared_type, "String"));
    assert!(r.get_by_id(&DataPointId::new("b")).is_some());
    let mut ids = r.list_ids();
    ids.sort();
    assert_eq!(ids, vec!["a".to_string(), "b".to_string()]);
}

#[test]
fn timed_value_now_is_recent() {
    let t = TimedValue::now(Value::Bool(true));
    assert!(t.ts_millis > 1_600_000_000_000);
    assert!(matches!(t.value, Value::Bool(true)));
}
