use digital_twin::database::config::{ClientConfig, Secret};
use digital_twin::database::connector::{Candidate, ConnectorConfig, IdlePool};
use digital_twin::database::protocol::ProtocolConnection;
use digital_twin::engine::events::{Event, EventKind, EventQueue, EventSource, QueueError};
use digital_twin::keyed_map::KeyedMap;
use digital_twin::mqtt::parser::parse_datetime_at;
use digital_twin::postgres::catalog::{Catalog, DbError, METADATA_TABLE};
use digital_twin::postgres::types::{ColumnDef, ColumnMeta, DataBinding, PgDataType, TableMeta};
use digital_twin::time::NANOS_PER_SEC;
use digital_twin::postgres::worker::{schema_statement, CatalogRequest, SchemaChange, WorkerStep};
use digital_twin::time::{parse_i64, timestamp_of_reading, utc_now, Duration, Timestamp, MAX_UTC_SECS, MIN_UTC_SECS};
use std::sync::Arc;

fn now() -> Timestamp {
    Timestamp { secs: 42, nanos: 7 }
}

fn table(name: &str, cols: &[&str]) -> TableMeta {
    let mut columns = KeyedMap::new();
    for c in cols {
        columns.insert(c.to_string(), ColumnMeta::from_def(ColumnDef::new(c, PgDataType::Text)));
    }
    TableMeta { name: name.to_string(), columns }
}

fn catalog() -> Catalog {
    let mut tables = KeyedMap::new();
    tables.insert("t".to_string(), table("t", &["a", "b"]));
    let mut c = Catalog::bootstrap("db", tables, None);
    let b = DataBinding { data_id: "x".to_string(), table: "t".to_string(), column: Some("a".to_string()) };
    assert!(matches!(c.begin(&CatalogRequest::RegisterBinding { binding: b }), WorkerStep::Persist));
    c
}

fn rejected(step: WorkerStep, name: &str) {
    match step {
        WorkerStep::Reply(Err(DbError::InvalidIdentifier(n))) => assert_eq!(n, name),
        WorkerStep::Execute(s) => panic!("expected a refusal of {name}, got statement {s}"),
        WorkerStep::Persist => panic!("expected a refusal of {name}, got persist"),
        WorkerStep::Reply(_) => panic!("expected a refusal of {name}"),
    }
}

fn tables_of(c: &Catalog) -> Vec<String> {
    (0..c.metadata.tables.key_count()).map(|i| c.metadata.tables.key_at(i).clone()).collect()
}

fn bindings_of(c: &Catalog) -> Vec<String> {
    (0..c.metadata.bindings.key_count()).map(|i| c.metadata.bindings.key_at(i).clone()).collect()
}

#[test]
fn parse_i64_reads_std_integers() {
    assert_eq!(parse_i64("42"), Some(42));
    assert_eq!(parse_i64("+5"), Some(5));
    assert_eq!(parse_i64("-17"), Some(-17));
    assert_eq!(parse_i64("-9223372036854775808"), Some(i64::MIN));
    assert_eq!(parse_i64("9223372036854775807"), Some(i64::MAX));
    assert_eq!(parse_i64("9223372036854775808"), None);
    assert_eq!(parse_i64("-"), None);
    assert_eq!(parse_i64("+"), None);
    assert_eq!(parse_i64(""), None);
    assert_eq!(parse_i64(" 1"), None);
    assert_eq!(parse_i64("1.5"), None);
}

#[test]
fn epoch_seconds_follow_the_calendar_range() {
    assert_eq!(parse_datetime_at("8210266876799", now()), Timestamp { secs: MAX_UTC_SECS, nanos: 0 });
    assert_eq!(parse_datetime_at("8210266876800", now()), now());
    assert_eq!(parse_datetime_at("-8334601228800", now()), Timestamp { secs: MIN_UTC_SECS, nanos: 0 });
    assert_eq!(parse_datetime_at("-8334601228801", now()), now());
    assert_eq!(parse_datetime_at("1700000000", now()), Timestamp { secs: 1_700_000_000, nanos: 0 });
}

#[test]
fn builder_default_is_the_default_configuration() {
    let c = ClientConfig::builder().build().unwrap();
    assert!(c.application_name.is_none());
    assert_eq!(c.topology.endpoints.len(), 1);
    assert_eq!(c.topology.endpoints[0].host, "127.0.0.1");
    assert_eq!(c.topology.endpoints[0].port, 0);
    assert_eq!(c.topology.endpoints[0].labels.key_count(), 0);
    assert!(!c.tls.enabled);
    assert!(c.tls.server_name.is_none() && c.tls.ca_cert_path.is_none());
    assert!(c.tls.client_cert_path.is_none() && c.tls.client_key_path.is_none());
    assert!(c.pooling.enabled);
    assert_eq!((c.pooling.max_size, c.pooling.min_size), (10, 0));
    assert_eq!(c.timeouts.connect, Duration { secs: 5, nanos: 0 });
    assert_eq!(c.timeouts.request, Duration { secs: 30, nanos: 0 });
    assert_eq!(c.options.key_count(), 0);
}

#[test]
fn builder_application_name_keeps_other_defaults() {
    let c = ClientConfig::builder().application_name("dt-engine").build().unwrap();
    assert_eq!(c.application_name.as_deref(), Some("dt-engine"));
    assert_eq!(c.topology.endpoints.len(), 1);
    assert_eq!(c.topology.endpoints[0].labels.key_count(), 0);
    assert!(c.tls.server_name.is_none() && c.tls.ca_cert_path.is_none());
    assert_eq!(c.pooling.max_size, 10);
}

#[test]
fn secret_clone_exposes_the_same_text_and_debug_hides_it() {
    let s = Secret::new("hunter2");
    let t = s.clone();
    assert_eq!(s.expose(), "hunter2");
    assert_eq!(t.expose(), "hunter2");
    assert_eq!(s.redacted(), "Secret(**redacted**)");
    assert!(!s.redacted().contains("hunter2"));
    assert_eq!(Secret::new("").clone().expose(), "");
}

#[test]
fn queue_of_one_keeps_event_ids() {
    let mut q = EventQueue::new(1);
    let a = Event::new(EventKind::PositionChanged, EventSource::Gateway).unwrap();
    let b = Event::new(EventKind::SyncCompleted, EventSource::Database).unwrap();
    assert_eq!(a.clone().id, a.id);
    assert!(q.try_push(a.clone()).is_ok());
    assert_eq!(q.try_push(b.clone()).unwrap_err(), QueueError::Full);
    assert_eq!(q.try_pop().unwrap().event.id, a.id);
    assert!(q.try_push(b.clone()).is_ok());
    assert_eq!(q.try_pop().unwrap().event.id, b.id);
    assert_eq!(q.try_pop().unwrap_err(), QueueError::Empty);
}

#[test]
fn a_failed_ping_is_not_undone_by_a_good_one() {
    let mut c = ProtocolConnection::new(0u8, 0u8, Arc::new(()));
    assert!(c.record_ping(true));
    assert!(!c.record_ping(false));
    assert!(!c.record_ping(true));
    assert!(!c.healthy());
}

#[test]
fn refused_schema_change_runs_nothing_and_keeps_the_catalog() {
    let mut c = catalog();
    let before = (tables_of(&c), bindings_of(&c), c.list_managed_ids());
    let change = SchemaChange::CreateTable { table: METADATA_TABLE.to_string(), columns: vec![] };
    rejected(c.begin(&CatalogRequest::Schema { change }), "dt_metadata");
    let change = SchemaChange::CreateTable { table: "1bad".to_string(), columns: vec![] };
    rejected(c.begin(&CatalogRequest::Schema { change }), "1bad");
    let columns = vec![ColumnDef::new("ok", PgDataType::Text), ColumnDef::new("no-dash", PgDataType::Text)];
    let change = SchemaChange::CreateTable { table: "good".to_string(), columns };
    rejected(c.begin(&CatalogRequest::Schema { change }), "no-dash");
    let change = SchemaChange::DropColumn { table: "t".to_string(), column: "a b".to_string() };
    rejected(c.complete(change, Ok(0)), "a b");
    assert_eq!((tables_of(&c), bindings_of(&c), c.list_managed_ids()), before);
}

#[test]
fn schema_change_runs_its_statement_then_follows_it() {
    let mut c = catalog();
    let change = SchemaChange::CreateTable { table: "u".to_string(), columns: vec![ColumnDef::new("v", PgDataType::Text)] };
    match c.begin(&CatalogRequest::Schema { change }) {
        WorkerStep::Execute(sql) => assert_eq!(sql, schema_statement(&SchemaChange::CreateTable {
            table: "u".to_string(),
            columns: vec![ColumnDef::new("v", PgDataType::Text)],
        }).unwrap()),
        _ => panic!("expected a statement"),
    }
    assert_eq!(tables_of(&c), vec!["t".to_string()]);
    let change = SchemaChange::CreateTable { table: "u".to_string(), columns: vec![ColumnDef::new("v", PgDataType::Text)] };
    assert!(matches!(c.complete(change, Ok(0)), WorkerStep::Persist));
    assert_eq!(tables_of(&c), vec!["t".to_string(), "u".to_string()]);
    let change = SchemaChange::DropTable { table: "t".to_string() };
    assert!(matches!(c.complete(change, Err(DbError::NotFound("t".to_string()))), WorkerStep::Reply(Err(DbError::NotFound(_)))));
    assert_eq!(bindings_of(&c), vec!["x".to_string()]);
    let change = SchemaChange::DropTable { table: "t".to_string() };
    assert!(matches!(c.complete(change, Ok(0)), WorkerStep::Persist));
    assert!(bindings_of(&c).is_empty());
    assert!(c.list_managed_ids().is_empty());
}

#[test]
fn binding_requests_are_checked_then_persisted() {
    let mut c = catalog();
    let bad = DataBinding { data_id: "y".to_string(), table: "t".to_string(), column: Some("9z".to_string()) };
    rejected(c.begin(&CatalogRequest::RegisterBinding { binding: bad }), "9z");
    assert_eq!(bindings_of(&c), vec!["x".to_string()]);
    assert!(matches!(c.begin(&CatalogRequest::AddManagedId { id: "m".to_string() }), WorkerStep::Reply(Ok(()))));
    assert_eq!(c.list_managed_ids().len(), 2);
    assert!(matches!(c.begin(&CatalogRequest::UnregisterBinding { data_id: "x".to_string() }), WorkerStep::Persist));
    assert!(bindings_of(&c).is_empty());
    assert!(matches!(c.begin(&CatalogRequest::RemoveManagedId { id: "m".to_string() }), WorkerStep::Persist));
    assert!(c.list_managed_ids().is_empty());
}

#[test]
fn checkout_takes_the_latest_idle_connection() {
    let mut pool: IdlePool<&str> = IdlePool::new(ConnectorConfig::default());
    assert!(matches!(pool.checkout_candidate(), Candidate::Empty));
    let a = pool.enroll("a");
    pool.return_idle(a);
    let b = pool.enroll("b");
    pool.return_idle(b);
    match pool.checkout_candidate() {
        Candidate::Fresh(p) => assert_eq!((p.conn, p.id), ("b", 2)),
        _ => panic!("expected the fresh connection b"),
    }
    assert_eq!(pool.idle_count(), 1);
}

#[test]
fn release_keeps_only_reset_healthy_connections() {
    let mut pool: IdlePool<&str> = IdlePool::new(ConnectorConfig::default());
    let a = pool.enroll("a");
    assert!(pool.finish_release(a, true, true).is_none());
    assert_eq!(pool.idle_count(), 1);
    let b = pool.enroll("b");
    let back = pool.finish_release(b, false, false).unwrap();
    assert_eq!(back.conn, "b");
    let back = pool.finish_release(back, true, false).unwrap();
    assert_eq!(back.id, 2);
    assert_eq!(pool.idle_count(), 1);
}

#[test]
fn clock_readings_become_instants() {
    assert_eq!(timestamp_of_reading(Ok((5, 7))), Timestamp { secs: 5, nanos: 7 });
    assert_eq!(timestamp_of_reading(Err((3, 0))), Timestamp { secs: -3, nanos: 0 });
    assert_eq!(timestamp_of_reading(Err((1, 250_000_000))), Timestamp { secs: -2, nanos: 750_000_000 });
    assert_eq!(timestamp_of_reading(Ok((u64::MAX, 1))), Timestamp { secs: i64::MAX, nanos: 1 });
    assert_eq!(timestamp_of_reading(Err((u64::MAX, 1))), Timestamp { secs: i64::MIN, nanos: 0 });
    let t = utc_now();
    assert!(t.nanos < NANOS_PER_SEC);
    assert!(t.secs > 1_600_000_000);
}

#[test]
fn event_ids_are_version_4_uuids() {
    let e = Event::with_random_id(EventKind::SyncCompleted, EventSource::Service, [0u8; 16], now());
    assert_eq!(e.id, 0x0000_0000_0000_4000_8000_0000_0000_0000u128);
    assert_eq!(e.created_at, now());
    assert_eq!(e.source, EventSource::Service);
    let f = Event::with_random_id(EventKind::SyncCompleted, EventSource::Service, [0xffu8; 16], now());
    assert_eq!(f.id, 0xffff_ffff_ffff_4fff_bfff_ffff_ffff_ffffu128);
    let g = Event::new(EventKind::PositionChanged, EventSource::Gateway).unwrap();
    assert_eq!((g.id >> 76) & 0xf, 4);
    assert_eq!((g.id >> 62) & 0x3, 2);
}

#[test]
fn live_sessions_stay_within_the_pool_size() {
    let cfg = ConnectorConfig { max_size: 2, ..ConnectorConfig::default() };
    let mut pool: IdlePool<&str> = IdlePool::new(cfg);
    assert!(pool.try_begin_session());
    assert!(pool.try_begin_session());
    assert!(!pool.try_begin_session());
    assert_eq!(pool.live_sessions(), 2);
    let a = pool.enroll("a");
    assert!(pool.finish_release(a, true, true).is_none());
    assert_eq!(pool.live_sessions(), 1);
    assert!(pool.try_begin_session());
    pool.end_session();
    pool.end_session();
    pool.end_session();
    assert_eq!(pool.live_sessions(), 0);
}

#[test]
fn sql_names_read_back_as_user_defined_columns() {
    for t in [PgDataType::Int4, PgDataType::Int8, PgDataType::Float8, PgDataType::Text, PgDataType::Uuid, PgDataType::TimestampTz, PgDataType::Jsonb, PgDataType::Custom("mood".to_string())] {
        assert_eq!(PgDataType::from_information_schema("USER-DEFINED", &t.to_sql()), t);
    }
    assert_eq!(PgDataType::from_information_schema("USER-DEFINED", &PgDataType::Bool.to_sql()), PgDataType::Custom("BOOLEAN".to_string()));
}

#[test]
fn an_empty_queue_takes_exactly_its_capacity() {
    let mut q = EventQueue::new(3);
    for i in 0..5 {
        let e = Event::with_random_id(EventKind::PositionChanged, EventSource::Gateway, [i as u8; 16], now());
        let r = q.try_push(e);
        if i < 3 {
            assert!(r.is_ok());
        } else {
            assert_eq!(r.unwrap_err(), QueueError::Full);
        }
    }
    assert_eq!(q.len(), 3);
}
