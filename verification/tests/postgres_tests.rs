use digital_twin::keyed_map::KeyedMap;
use digital_twin::postgres::catalog::{
    add_column_statement, create_table_statement, drop_column_statement, drop_table_statement,
    insert_row_statement, insert_row_statement_no_ack, join_columns, submit_result, validate_ident, Catalog,
    DbError, SubmitOutcome, METADATA_TABLE,
};
use digital_twin::postgres::manager::DatabaseManager;
use digital_twin::postgres::schema::{
    default_timeseries_columns, is_introspected_table, position_schema, speed_schema, table_meta_from_rows,
    InformationSchemaColumn, TABLE_POSITION, TABLE_SPEED,
};
use digital_twin::postgres::types::{ColumnDef, ColumnMeta, DataBinding, DbMetadata, PgDataType, TableMeta};

fn invalid(r: Result<impl std::fmt::Debug, DbError>, name: &str) {
    match r {
        Err(DbError::InvalidIdentifier(n)) => assert_eq!(n, name),
        other => panic!("expected InvalidIdentifier({name}), got {other:?}"),
    }
}

fn table(name: &str, cols: &[&str]) -> TableMeta {
    let mut columns = KeyedMap::new();
    for c in cols {
        columns.insert(c.to_string(), ColumnMeta::from_def(ColumnDef::new(c, PgDataType::Text)));
    }
    TableMeta { name: name.to_string(), columns }
}

fn binding(id: &str, t: &str, c: Option<&str>) -> DataBinding {
    DataBinding { data_id: id.to_string(), table: t.to_string(), column: c.map(|c| c.to_string()) }
}

fn sorted(mut v: Vec<String>) -> Vec<String> {
    v.sort();
    v
}

#[test]
fn identifiers() {
    assert!(validate_ident("abc_1").is_ok());
    assert!(validate_ident("_x").is_ok());
    assert!(validate_ident("Z9").is_ok());
    invalid(validate_ident("1abc"), "1abc");
    invalid(validate_ident(""), "");
    invalid(validate_ident("a-b"), "a-b");
    invalid(validate_ident("ä"), "ä");
    invalid(validate_ident("drop table;"), "drop table;");
}

#[test]
fn type_names_and_information_schema() {
    assert_eq!(PgDataType::Bool.to_sql(), "BOOLEAN");
    assert_eq!(PgDataType::Int4.to_sql(), "INT4");
    assert_eq!(PgDataType::TimestampTz.to_sql(), "TIMESTAMPTZ");
    assert_eq!(PgDataType::Custom("NUMERIC(10,2)".to_string()).to_sql(), "NUMERIC(10,2)");
    assert_eq!(PgDataType::from_information_schema("integer", "int4"), PgDataType::Int4);
    assert_eq!(PgDataType::from_information_schema("Double Precision", "x"), PgDataType::Float8);
    assert_eq!(PgDataType::from_information_schema("timestamp with time zone", "timestamptz"), PgDataType::TimestampTz);
    assert_eq!(PgDataType::from_information_schema("USER-DEFINED", "JSONB"), PgDataType::Jsonb);
    assert_eq!(PgDataType::from_information_schema("USER-DEFINED", "mood"), PgDataType::Custom("mood".to_string()));
    assert_eq!(PgDataType::from_information_schema("character varying", "varchar"), PgDataType::Custom("varchar".to_string()));
}

#[test]
fn column_def_defaults() {
    let c = ColumnDef::new("x", PgDataType::Text);
    assert_eq!(c.name, "x");
    assert!(c.nullable && !c.primary_key && c.default_sql.is_none());
    let m = ColumnMeta::from_def(c);
    assert_eq!(m.name, "x");
    assert_eq!(m.data_type, PgDataType::Text);
}

#[test]
fn join_columns_renders_each_definition() {
    assert_eq!(
        join_columns(&default_timeseries_columns(PgDataType::Float8)).unwrap(),
        "id UUID NOT NULL PRIMARY KEY, ts TIMESTAMPTZ DEFAULT now() NOT NULL, payload FLOAT8 NOT NULL"
    );
    assert_eq!(join_columns(&vec![]).unwrap(), "");
    let cols = vec![ColumnDef::new("ok", PgDataType::Int8), ColumnDef::new("bad name", PgDataType::Int8)];
    invalid(join_columns(&cols), "bad name");
}

#[test]
fn schemas_of_properties() {
    assert_eq!(TABLE_POSITION, "dt_position");
    assert_eq!(TABLE_SPEED, "dt_speed");
    assert_eq!(
        join_columns(&position_schema()).unwrap(),
        "entity_id TEXT NOT NULL PRIMARY KEY, ts TIMESTAMPTZ DEFAULT now() NOT NULL, x FLOAT8 NOT NULL, y FLOAT8 NOT NULL, z FLOAT8 NOT NULL"
    );
    assert_eq!(
        join_columns(&speed_schema()).unwrap(),
        "entity_id TEXT NOT NULL PRIMARY KEY, ts TIMESTAMPTZ DEFAULT now() NOT NULL, value FLOAT8 NOT NULL"
    );
}

#[test]
fn schema_statements() {
    assert_eq!(
        create_table_statement("dt_sensor", &vec![ColumnDef::new("v", PgDataType::Text)]).unwrap(),
        "CREATE TABLE IF NOT EXISTS dt_sensor (v TEXT)"
    );
    invalid(create_table_statement(METADATA_TABLE, &vec![]), "dt_metadata");
    invalid(create_table_statement("x y", &vec![]), "x y");
    assert_eq!(drop_table_statement("dt_sensor").unwrap(), "DROP TABLE IF EXISTS dt_sensor CASCADE");
    invalid(drop_table_statement("dt_metadata"), "dt_metadata");
    let mut c = ColumnDef::new("level", PgDataType::Int4);
    c.default_sql = Some("0".to_string());
    c.nullable = false;
    c.primary_key = true;
    assert_eq!(
        add_column_statement("t", &c).unwrap(),
        "ALTER TABLE t ADD COLUMN IF NOT EXISTS level INT4 DEFAULT 0 NOT NULL"
    );
    invalid(add_column_statement("t", &ColumnDef::new("9", PgDataType::Text)), "9");
    invalid(add_column_statement("dt_metadata", &ColumnDef::new("a", PgDataType::Text)), "dt_metadata");
    assert_eq!(drop_column_statement("t", "level").unwrap(), "ALTER TABLE t DROP COLUMN IF EXISTS level");
    invalid(drop_column_statement("t", "le vel"), "le vel");
}

#[test]
fn insert_statements() {
    let cols = vec!["id".to_string(), "payload".to_string()];
    assert_eq!(insert_row_statement("dt_sensor", &cols).unwrap(), "INSERT INTO dt_sensor (id, payload) VALUES ($1, $2)");
    assert_eq!(
        insert_row_statement_no_ack("dt_sensor", &cols).unwrap().as_deref(),
        Some("INSERT INTO dt_sensor (id, payload) VALUES ($1, $2)")
    );
    match insert_row_statement("t", &vec![]) {
        Err(DbError::NotFound(m)) => assert_eq!(m, "no values to insert"),
        other => panic!("unexpected {other:?}"),
    }
    assert_eq!(insert_row_statement_no_ack("t", &vec![]).unwrap(), None);
    invalid(insert_row_statement("t", &vec!["a".to_string(), "b-c".to_string()]), "b-c");
    invalid(insert_row_statement("1t", &vec![]), "1t");
    let many: Vec<String> = (0..11).map(|i| format!("c{i}")).collect();
    assert!(insert_row_statement("t", &many).unwrap().ends_with("$10, $11)"));
}

#[test]
fn submit_outcomes() {
    assert!(submit_result(SubmitOutcome::Sent).is_ok());
    assert!(matches!(submit_result(SubmitOutcome::Full), Err(DbError::QueueFull)));
    assert!(matches!(submit_result(SubmitOutcome::Closed), Err(DbError::WorkerClosed)));
}

#[test]
fn introspected_table_rows() {
    let rows = vec![
        InformationSchemaColumn {
            column_name: "id".to_string(),
            is_nullable: "NO".to_string(),
            data_type: "uuid".to_string(),
            udt_name: "uuid".to_string(),
            column_default: None,
        },
        InformationSchemaColumn {
            column_name: "ts".to_string(),
            is_nullable: "yes".to_string(),
            data_type: "timestamp with time zone".to_string(),
            udt_name: "timestamptz".to_string(),
            column_default: Some("now()".to_string()),
        },
    ];
    let t = table_meta_from_rows("dt_sensor".to_string(), vec!["id".to_string()], rows);
    assert_eq!(t.name, "dt_sensor");
    let id = t.columns.get("id").unwrap();
    assert!(id.primary_key && !id.nullable);
    assert_eq!(id.data_type, PgDataType::Uuid);
    let ts = t.columns.get("ts").unwrap();
    assert!(!ts.primary_key && ts.nullable);
    assert_eq!(ts.default_sql.as_deref(), Some("now()"));
    assert!(is_introspected_table("dt_sensor"));
    assert!(!is_introspected_table("dt_metadata"));
}

#[test]
fn bootstrap_prunes_persisted_bindings() {
    let mut tables = KeyedMap::new();
    tables.insert("dt_sensor".to_string(), table("dt_sensor", &["payload", "ts"]));
    let mut persisted = KeyedMap::new();
    persisted.insert("temp".to_string(), binding("temp", "dt_sensor", Some("payload")));
    persisted.insert("gone".to_string(), binding("gone", "dt_old", None));
    persisted.insert("col".to_string(), binding("col", "dt_sensor", Some("missing")));
    persisted.insert("whole".to_string(), binding("whole", "dt_sensor", None));
    let c = Catalog::bootstrap("pg-main", tables, Some(persisted));
    assert_eq!(c.metadata.db_name, "pg-main");
    assert_eq!(sorted(c.list_managed_ids()), vec!["temp".to_string(), "whole".to_string()]);
    assert!(c.metadata.bindings.get("gone").is_none());
    assert!(c.metadata.bindings.get("col").is_none());
}

#[test]
fn catalog_operations_keep_bindings_consistent() {
    let mut c = Catalog::bootstrap("db", KeyedMap::new(), None);
    assert!(c.list_managed_ids().is_empty());
    c.register_binding(binding("t", "dt_sensor", Some("payload")));
    assert!(c.metadata.bindings.get("t").is_none());
    c.create_table("dt_sensor".to_string(), default_timeseries_columns(PgDataType::Float8));
    c.register_binding(binding("t", "dt_sensor", Some("payload")));
    c.register_binding(binding("ts", "dt_sensor", Some("ts")));
    assert_eq!(sorted(c.list_managed_ids()), vec!["t".to_string(), "ts".to_string()]);
    c.drop_column("dt_sensor", "payload");
    assert!(c.metadata.bindings.get("t").is_none());
    assert!(c.metadata.tables.get("dt_sensor").unwrap().columns.get("payload").is_none());
    assert_eq!(c.list_managed_ids(), vec!["ts".to_string()]);
    c.add_column("dt_sensor".to_string(), ColumnDef::new("payload", PgDataType::Float8));
    c.register_binding(binding("t", "dt_sensor", Some("payload")));
    c.unregister_binding("ts");
    assert_eq!(c.list_managed_ids(), vec!["t".to_string()]);
    c.drop_table("dt_sensor");
    assert!(c.metadata.bindings.get("t").is_none());
    assert!(c.list_managed_ids().is_empty());
}

#[test]
fn managed_ids_and_refresh() {
    let mut tables = KeyedMap::new();
    tables.insert("a".to_string(), table("a", &["x"]));
    let mut c = Catalog::bootstrap("db", tables, None);
    c.add_managed_id("free".to_string());
    c.register_binding(binding("bx", "a", Some("x")));
    let mut ids = sorted(c.list_managed_ids());
    assert_eq!(ids, vec!["bx".to_string()]);
    c.add_managed_id("free".to_string());
    ids = sorted(c.list_managed_ids());
    assert_eq!(ids, vec!["bx".to_string(), "free".to_string()]);
    c.remove_managed_id("free");
    assert_eq!(c.list_managed_ids(), vec!["bx".to_string()]);
    let mut fresh = KeyedMap::new();
    fresh.insert("b".to_string(), table("b", &["y"]));
    c.refresh_schema(fresh);
    assert!(c.metadata.tables.get("a").is_none());
    assert!(c.metadata.bindings.get("bx").is_none());
}

#[test]
fn binding_checks() {
    assert!(Catalog::check_binding(&binding("d", "t", Some("c"))).is_ok());
    assert!(Catalog::check_binding(&binding("d", "t", None)).is_ok());
    invalid(Catalog::check_binding(&binding("d", "t-1", Some("c"))), "t-1");
    invalid(Catalog::check_binding(&binding("d", "t", Some("1c"))), "1c");
}

#[test]
fn metadata_new_is_empty() {
    let m = DbMetadata::new("pg");
    assert_eq!(m.db_name, "pg");
    assert_eq!(m.tables.len(), 0);
    assert_eq!(m.bindings.len(), 0);
}

#[test]
fn database_manager_names_are_unique() {
    let mut m: DatabaseManager<u32> = DatabaseManager::new();
    assert!(m.add_db("pg-main".to_string(), 1).is_ok());
    match m.add_db("pg-main".to_string(), 2) {
        Err(DbError::AlreadyExists(msg)) => assert_eq!(msg, "DB 'pg-main' already registered"),
        other => panic!("unexpected {other:?}"),
    }
    assert_eq!(m.get_db("pg-main"), Some(&1));
    assert!(m.add_db("pg-b".to_string(), 3).is_ok());
    assert_eq!(sorted(m.list_db_names()), vec!["pg-b".to_string(), "pg-main".to_string()]);
    assert_eq!(m.remove_db("pg-main"), Some(1));
    assert_eq!(m.remove_db("pg-main"), None);
    assert!(m.get_db("pg-main").is_none());
}
