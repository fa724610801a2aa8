//! Table layouts used by the digital twin and the assembly of table metadata
//! read from `information_schema`.

use vstd::prelude::*;
use crate::keyed_map::KeyedMap;
use crate::postgres::types::{
    ColumnDef, ColumnMeta, PgDataType, TableMeta, information_schema_type_matches, lemma_data_type_names_its_type,
    postgres_data_type,
};
use crate::text::{chars_of, chars_eq_str, string_of, to_ascii_uppercase, ascii_lower, ascii_upper};

verus! {

/// Whether `c` is the column `name` of type `ty` with the given nullability,
/// key flag and default expression.
pub open spec fn column_is(
    c: ColumnDef,
    name: Seq<char>,
    ty: PgDataType,
    nullable: bool,
    primary_key: bool,
    default_sql: Option<Seq<char>>,
) -> bool {
    &&& c.name@ == name
    &&& c.data_type == ty
    &&& c.nullable == nullable
    &&& c.primary_key == primary_key
    &&& match (c.default_sql, default_sql) {
        (Some(a), Some(b)) => a@ == b,
        (None, None) => true,
        _ => false,
    }
}

fn column(name: &str, ty: PgDataType, nullable: bool, primary_key: bool, default_sql: Option<&str>) -> (c: ColumnDef)
    ensures
        column_is(c, name@, ty, nullable, primary_key, match default_sql {
            Some(d) => Some(d@),
            None => None,
        }),
{
    let mut c = ColumnDef::new(name, ty);
    c.nullable = nullable;
    c.primary_key = primary_key;
    c.default_sql = match default_sql {
        Some(d) => Some(string_of(d)),
        None => None,
    };
    c
}

/// The name of the table that holds the latest position of each entity.
pub const TABLE_POSITION: &'static str = "dt_position";

/// The name of the table that holds the latest speed of each entity.
pub const TABLE_SPEED: &'static str = "dt_speed";

/// Upserts the latest position of an entity: `$1` the entity id, `$2`..`$4`
/// the coordinates.
pub const POSITION_UPSERT_SQL: &'static str = "INSERT INTO dt_position (entity_id, ts, x, y, z) VALUES ($1, now(), $2, $3, $4) ON CONFLICT (entity_id) DO UPDATE SET ts = EXCLUDED.ts, x = EXCLUDED.x, y = EXCLUDED.y, z = EXCLUDED.z";

/// Reads the latest position of the entity `$1`.
pub const POSITION_SELECT_SQL: &'static str = "SELECT x, y, z FROM dt_position WHERE entity_id = $1";

/// Reads the latest position of the entity `$1` and when it was set.
pub const POSITION_SELECT_WITH_TS_SQL: &'static str = "SELECT x, y, z, ts FROM dt_position WHERE entity_id = $1";

/// Upserts the latest speed of an entity: `$1` the entity id, `$2` the value.
pub const SPEED_UPSERT_SQL: &'static str = "INSERT INTO dt_speed (entity_id, ts, value) VALUES ($1, now(), $2) ON CONFLICT (entity_id) DO UPDATE SET ts = EXCLUDED.ts, value = EXCLUDED.value";

/// Reads the latest speed of the entity `$1`.
pub const SPEED_SELECT_SQL: &'static str = "SELECT value FROM dt_speed WHERE entity_id = $1";

/// Reads the latest speed of the entity `$1` and when it was set.
pub const SPEED_SELECT_WITH_TS_SQL: &'static str = "SELECT value, ts FROM dt_speed WHERE entity_id = $1";

/// Lists the base tables of the public schema by name.
pub const TABLES_QUERY_SQL: &'static str = "SELECT table_name FROM information_schema.tables WHERE table_schema = 'public' AND table_type = 'BASE TABLE' ORDER BY table_name";

/// Lists the primary-key columns of the public table `$1`.
pub const PRIMARY_KEY_QUERY_SQL: &'static str = "SELECT kcu.column_name FROM information_schema.table_constraints tc JOIN information_schema.key_column_usage kcu ON tc.constraint_name = kcu.constraint_name AND tc.table_schema = kcu.table_schema WHERE tc.table_schema = 'public' AND tc.table_name = $1 AND tc.constraint_type = 'PRIMARY KEY'";

/// Lists the columns of the public table `$1` in their declared order.
pub const COLUMNS_QUERY_SQL: &'static str = "SELECT column_name, is_nullable, data_type, udt_name, column_default FROM information_schema.columns WHERE table_schema = 'public' AND table_name = $1 ORDER BY ordinal_position";

/// The columns of the position table: the entity id as text primary key, the
/// time of the update (default `now()`) and the coordinates `x`, `y`, `z`,
/// none of them nullable.
pub fn position_schema() -> (cols: Vec<ColumnDef>)
    ensures
        cols@.len() == 5,
        column_is(cols@[0], "entity_id"@, PgDataType::Text, false, true, None),
        column_is(cols@[1], "ts"@, PgDataType::TimestampTz, false, false, Some("now()"@)),
        column_is(cols@[2], "x"@, PgDataType::Float8, false, false, None),
        column_is(cols@[3], "y"@, PgDataType::Float8, false, false, None),
        column_is(cols@[4], "z"@, PgDataType::Float8, false, false, None),
{
    let mut cols: Vec<ColumnDef> = Vec::new();
    cols.push(column("entity_id", PgDataType::Text, false, true, None));
    cols.push(column("ts", PgDataType::TimestampTz, false, false, Some("now()")));
    cols.push(column("x", PgDataType::Float8, false, false, None));
    cols.push(column("y", PgDataType::Float8, false, false, None));
    cols.push(column("z", PgDataType::Float8, false, false, None));
    cols
}

/// The columns of the speed table: the entity id as text primary key, the
/// time of the update (default `now()`) and the speed `value`, none of them
/// nullable.
pub fn speed_schema() -> (cols: Vec<ColumnDef>)
    ensures
        cols@.len() == 3,
        column_is(cols@[0], "entity_id"@, PgDataType::Text, false, true, None),
        column_is(cols@[1], "ts"@, PgDataType::TimestampTz, false, false, Some("now()"@)),
        column_is(cols@[2], "value"@, PgDataType::Float8, false, false, None),
{
    let mut cols: Vec<ColumnDef> = Vec::new();
    cols.push(column("entity_id", PgDataType::Text, false, true, None));
    cols.push(column("ts", PgDataType::TimestampTz, false, false, Some("now()")));
    cols.push(column("value", PgDataType::Float8, false, false, None));
    cols
}

/// The columns of a time series table: a UUID primary key `id`, the time `ts`
/// (default `now()`) and the `payload` of type `payload_type`, none of them
/// nullable.
pub fn default_timeseries_columns(payload_type: PgDataType) -> (cols: Vec<ColumnDef>)
    ensures
        cols@.len() == 3,
        column_is(cols@[0], "id"@, PgDataType::Uuid, false, true, None),
        column_is(cols@[1], "ts"@, PgDataType::TimestampTz, false, false, Some("now()"@)),
        column_is(cols@[2], "payload"@, payload_type, false, false, None),
{
    let mut cols: Vec<ColumnDef> = Vec::new();
    cols.push(column("id", PgDataType::Uuid, false, true, None));
    cols.push(column("ts", PgDataType::TimestampTz, false, false, Some("now()")));
    cols.push(column("payload", payload_type, false, false, None));
    cols
}

/// One row of `information_schema.columns` for a table.
#[derive(Clone, Debug)]
pub struct InformationSchemaColumn {
    pub column_name: String,
    /// "YES" or "NO".
    pub is_nullable: String,
    pub data_type: String,
    pub udt_name: String,
    pub column_default: Option<String>,
}

/// Whether `m` records the column that `row` describes, with `pk` telling
/// whether it belongs to the primary key. A column is nullable exactly when
/// `is_nullable` reads "YES" in any ASCII case.
pub open spec fn column_meta_matches(m: ColumnMeta, row: InformationSchemaColumn, pk: bool) -> bool {
    &&& m.name@ == row.column_name@
    &&& information_schema_type_matches(m.data_type, row.data_type@, row.udt_name@)
    &&& m.nullable == (ascii_upper(row.is_nullable@) == "YES"@)
    &&& m.primary_key == pk
    &&& m.default_sql == row.column_default
}

/// The catalog's record of the column that `row` describes.
pub fn column_meta_from_row(row: InformationSchemaColumn, primary_key_columns: &KeyedMap<()>) -> (m: ColumnMeta)
    requires
        primary_key_columns.wf(),
    ensures
        column_meta_matches(m, row, primary_key_columns@.contains_key(row.column_name@)),
{
    let nullable = chars_eq_str(&to_ascii_uppercase(&chars_of(row.is_nullable.as_str())), "YES");
    let primary_key = primary_key_columns.contains_key(row.column_name.as_str());
    let data_type = PgDataType::from_information_schema(row.data_type.as_str(), row.udt_name.as_str());
    ColumnMeta { name: row.column_name, data_type, nullable, primary_key, default_sql: row.column_default }
}

/// A column of a built-in type, described by its row as PostgreSQL describes
/// it, is recorded with that type, under the row's name; it is nullable when
/// the row says "YES" and not when it says "NO".
pub proof fn lemma_row_records_its_column(m: ColumnMeta, row: InformationSchemaColumn, pk: bool, t: PgDataType)
    requires
        column_meta_matches(m, row, pk),
        postgres_data_type(t) == Some(ascii_lower(row.data_type@)),
    ensures
        m.data_type == t,
        m.name@ == row.column_name@,
        row.is_nullable@ == "YES"@ ==> m.nullable,
        row.is_nullable@ == "NO"@ ==> !m.nullable,
{
    lemma_data_type_names_its_type(t, row.data_type@, row.udt_name@, m.data_type);
    reveal_strlit("YES");
    reveal_strlit("NO");
    assert(ascii_upper("YES"@) =~= "YES"@);
    assert(ascii_upper("NO"@).len() == 2);
}

/// The columns that `rows` describe, by name; a later row of the same name
/// replaces an earlier one.
pub open spec fn rows_describe(cols: Map<Seq<char>, ColumnMeta>, rows: Seq<InformationSchemaColumn>, pk: Set<Seq<char>>) -> bool {
    &&& cols.dom() == rows.map_values(|r: InformationSchemaColumn| r.column_name@).to_set()
    &&& forall|k: Seq<char>| #[trigger] cols.contains_key(k) ==> exists|i: int|
        0 <= i < rows.len() && rows[i].column_name@ == k && column_meta_matches(cols[k], rows[i], pk.contains(k))
            && forall|j: int| i < j < rows.len() ==> (#[trigger] rows[j]).column_name@ != k
}

/// The catalog's record of table `table_name` from its primary key columns
/// and its `information_schema.columns` rows.
pub fn table_meta_from_rows(table_name: String, primary_key_columns: Vec<String>, rows: Vec<InformationSchemaColumn>) -> (t: TableMeta)
    ensures
        t.name == table_name,
        t.columns.wf(),
        rows_describe(t.columns@, rows@, primary_key_columns@.map_values(|s: String| s@).to_set()),
{
    let mut pk: KeyedMap<()> = KeyedMap::new();
    let mut i: usize = 0;
    while i < primary_key_columns.len()
        invariant
            pk.wf(),
            i <= primary_key_columns@.len(),
            pk@.dom() == primary_key_columns@.map_values(|s: String| s@).take(i as int).to_set(),
        decreases primary_key_columns.len() - i,
    {
        let ghost before = pk@.dom();
        pk.insert(primary_key_columns[i].clone(), ());
        proof {
            let names = primary_key_columns@.map_values(|s: String| s@);
            assert(names.take(i + 1) =~= names.take(i as int).push(names[i as int]));
            names.take(i as int).lemma_push_to_set_commute(names[i as int]);
            assert(pk@.dom() =~= names.take(i + 1).to_set());
        }
        i = i + 1;
    }
    let ghost pk_set = primary_key_columns@.map_values(|s: String| s@).to_set();
    proof {
        let names = primary_key_columns@.map_values(|s: String| s@);
        assert(names.take(names.len() as int) =~= names);
    }
    let mut cols: KeyedMap<ColumnMeta> = KeyedMap::new();
    let mut rest = rows;
    let ghost all = rest@;
    let ghost mut n: int = 0;
    proof {
        assert(all.take(0).map_values(|r: InformationSchemaColumn| r.column_name@).to_set() =~= Set::empty());
    }
    while rest.len() > 0
        invariant
            pk.wf(),
            pk@.dom() == pk_set,
            cols.wf(),
            0 <= n <= all.len(),
            rest@ == all.skip(n),
            rows_describe(cols@, all.take(n), pk_set),
        decreases rest.len(),
    {
        let row = rest.remove(0);
        proof {
            assert(row == all[n]);
            assert(rest@ =~= all.skip(n + 1));
        }
        let key = row.column_name.clone();
        let ghost before = cols@;
        let meta = column_meta_from_row(row, &pk);
        cols.insert(key, meta);
        proof {
            let prev = all.take(n);
            let next = all.take(n + 1);
            assert(next =~= prev.push(all[n]));
            let f = |r: InformationSchemaColumn| r.column_name@;
            assert(next.map_values(f) =~= prev.map_values(f).push(all[n].column_name@));
            prev.map_values(f).lemma_push_to_set_commute(all[n].column_name@);
            assert(cols@.dom() =~= next.map_values(f).to_set());
            assert forall|k: Seq<char>| #[trigger] cols@.contains_key(k) implies exists|i: int|
                0 <= i < next.len() && next[i].column_name@ == k && column_meta_matches(cols@[k], next[i], pk_set.contains(k))
                    && forall|j: int| i < j < next.len() ==> (#[trigger] next[j]).column_name@ != k by {
                if k == all[n].column_name@ {
                    assert(next[n] == all[n]);
                } else {
                    let i = choose|i: int| 0 <= i < prev.len() && prev[i].column_name@ == k && column_meta_matches(before[k], prev[i], pk_set.contains(k))
                        && forall|j: int| i < j < prev.len() ==> (#[trigger] prev[j]).column_name@ != k;
                    assert(next[i] == prev[i]);
                    assert forall|j: int| i < j < next.len() implies (#[trigger] next[j]).column_name@ != k by {
                        if j < n {
                            assert(next[j] == prev[j]);
                        }
                    }
                }
            }
            n = n + 1;
        }
    }
    proof {
        assert(all.take(n) =~= all);
    }
    TableMeta { name: table_name, columns: cols }
}

/// Whether the schema introspection records a table of this name: every
/// table but the one that holds the catalog.
pub fn is_introspected_table(name: &str) -> (b: bool)
    ensures
        b == (name@ != "dt_metadata"@),
{
    let v = chars_of(name);
    !chars_eq_str(&v, "dt_metadata")
}

} // verus!
