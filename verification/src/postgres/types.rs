//! PostgreSQL column types and the metadata tracked about tables and bindings.

use vstd::prelude::*;
use crate::keyed_map::KeyedMap;
use crate::text::{chars_of, chars_eq_str, string_of, to_ascii_lowercase, ascii_lower};

verus! {

/// A PostgreSQL column type.
#[derive(Clone, Debug, PartialEq, Eq)]
pub enum PgDataType {
    Bool,
    Int4,
    Int8,
    Float8,
    Text,
    Uuid,
    TimestampTz,
    Jsonb,
    /// A type not covered above (enums, numeric, varchar, custom domains), by name.
    Custom(String),
}

/// The SQL name of a type, as used in DDL.
pub open spec fn sql_type_name(t: PgDataType) -> Seq<char> {
    match t {
        PgDataType::Bool => "BOOLEAN"@,
        PgDataType::Int4 => "INT4"@,
        PgDataType::Int8 => "INT8"@,
        PgDataType::Float8 => "FLOAT8"@,
        PgDataType::Text => "TEXT"@,
        PgDataType::Uuid => "UUID"@,
        PgDataType::TimestampTz => "TIMESTAMPTZ"@,
        PgDataType::Jsonb => "JSONB"@,
        PgDataType::Custom(s) => s@,
    }
}

/// The type that an `information_schema.columns.data_type` value names, if it is a known one.
pub open spec fn type_of_data_type(dt: Seq<char>) -> Option<PgDataType> {
    if dt == "boolean"@ {
        Some(PgDataType::Bool)
    } else if dt == "integer"@ {
        Some(PgDataType::Int4)
    } else if dt == "bigint"@ {
        Some(PgDataType::Int8)
    } else if dt == "double precision"@ {
        Some(PgDataType::Float8)
    } else if dt == "text"@ {
        Some(PgDataType::Text)
    } else if dt == "uuid"@ {
        Some(PgDataType::Uuid)
    } else if dt == "timestamp with time zone"@ {
        Some(PgDataType::TimestampTz)
    } else if dt == "jsonb"@ {
        Some(PgDataType::Jsonb)
    } else {
        None
    }
}

/// The type that an `information_schema.columns.udt_name` value names, if it is a known one.
pub open spec fn type_of_udt_name(udt: Seq<char>) -> Option<PgDataType> {
    if udt == "bool"@ {
        Some(PgDataType::Bool)
    } else if udt == "int4"@ {
        Some(PgDataType::Int4)
    } else if udt == "int8"@ {
        Some(PgDataType::Int8)
    } else if udt == "float8"@ {
        Some(PgDataType::Float8)
    } else if udt == "text"@ {
        Some(PgDataType::Text)
    } else if udt == "uuid"@ {
        Some(PgDataType::Uuid)
    } else if udt == "timestamptz"@ {
        Some(PgDataType::TimestampTz)
    } else if udt == "jsonb"@ {
        Some(PgDataType::Jsonb)
    } else {
        None
    }
}

/// The known type that an `information_schema` column description names: the
/// data type decides first, then the UDT name, both compared in ASCII lower case.
/// `None` means the column keeps its UDT name as a custom type.
pub open spec fn known_information_schema_type(dt: Seq<char>, udt: Seq<char>) -> Option<PgDataType> {
    match type_of_data_type(ascii_lower(dt)) {
        Some(t) => Some(t),
        None => type_of_udt_name(ascii_lower(udt)),
    }
}

/// The type `information_schema` describes, given its `data_type` and `udt_name`.
pub open spec fn information_schema_type_matches(t: PgDataType, dt: Seq<char>, udt: Seq<char>) -> bool {
    match known_information_schema_type(dt, udt) {
        Some(k) => t == k,
        None => t matches PgDataType::Custom(s) && s@ == udt,
    }
}

fn data_type_lookup(dt: &Vec<char>) -> (r: Option<PgDataType>)
    ensures
        r == type_of_data_type(dt@),
{
    if chars_eq_str(dt, "boolean") {
        Some(PgDataType::Bool)
    } else if chars_eq_str(dt, "integer") {
        Some(PgDataType::Int4)
    } else if chars_eq_str(dt, "bigint") {
        Some(PgDataType::Int8)
    } else if chars_eq_str(dt, "double precision") {
        Some(PgDataType::Float8)
    } else if chars_eq_str(dt, "text") {
        Some(PgDataType::Text)
    } else if chars_eq_str(dt, "uuid") {
        Some(PgDataType::Uuid)
    } else if chars_eq_str(dt, "timestamp with time zone") {
        Some(PgDataType::TimestampTz)
    } else if chars_eq_str(dt, "jsonb") {
        Some(PgDataType::Jsonb)
    } else {
        None
    }
}

fn udt_name_lookup(udt: &Vec<char>) -> (r: Option<PgDataType>)
    ensures
        r == type_of_udt_name(udt@),
{
    if chars_eq_str(udt, "bool") {
        Some(PgDataType::Bool)
    } else if chars_eq_str(udt, "int4") {
        Some(PgDataType::Int4)
    } else if chars_eq_str(udt, "int8") {
        Some(PgDataType::Int8)
    } else if chars_eq_str(udt, "float8") {
        Some(PgDataType::Float8)
    } else if chars_eq_str(udt, "text") {
        Some(PgDataType::Text)
    } else if chars_eq_str(udt, "uuid") {
        Some(PgDataType::Uuid)
    } else if chars_eq_str(udt, "timestamptz") {
        Some(PgDataType::TimestampTz)
    } else if chars_eq_str(udt, "jsonb") {
        Some(PgDataType::Jsonb)
    } else {
        None
    }
}

impl PgDataType {
    /// The SQL type name for DDL generation.
    pub fn to_sql(&self) -> (s: String)
        ensures
            s@ == sql_type_name(*self),
    {
        match self {
            PgDataType::Bool => string_of("BOOLEAN"),
            PgDataType::Int4 => string_of("INT4"),
            PgDataType::Int8 => string_of("INT8"),
            PgDataType::Float8 => string_of("FLOAT8"),
            PgDataType::Text => string_of("TEXT"),
            PgDataType::Uuid => string_of("UUID"),
            PgDataType::TimestampTz => string_of("TIMESTAMPTZ"),
            PgDataType::Jsonb => string_of("JSONB"),
            PgDataType::Custom(s) => s.clone(),
        }
    }

    /// Best-effort mapping from an `information_schema.columns` row.
    ///
    /// `data_type` examples: "integer", "bigint", "text", "timestamp with time zone", "USER-DEFINED";
    /// `udt_name` examples: "int4", "int8", "text", "timestamptz", "jsonb", "uuid", an enum's name.
    pub fn from_information_schema(data_type: &str, udt_name: &str) -> (t: PgDataType)
        ensures
            information_schema_type_matches(t, data_type@, udt_name@),
    {
        let dt = to_ascii_lowercase(&chars_of(data_type));
        match data_type_lookup(&dt) {
            Some(t) => t,
            None => {
                let udt = to_ascii_lowercase(&chars_of(udt_name));
                match udt_name_lookup(&udt) {
                    Some(t) => t,
                    None => PgDataType::Custom(string_of(udt_name)),
                }
            },
        }
    }
}

/// The `information_schema.columns.data_type` that PostgreSQL reports for a
/// column of the built-in type `t` (none for a custom type).
pub open spec fn postgres_data_type(t: PgDataType) -> Option<Seq<char>> {
    match t {
        PgDataType::Bool => Some("boolean"@),
        PgDataType::Int4 => Some("integer"@),
        PgDataType::Int8 => Some("bigint"@),
        PgDataType::Float8 => Some("double precision"@),
        PgDataType::Text => Some("text"@),
        PgDataType::Uuid => Some("uuid"@),
        PgDataType::TimestampTz => Some("timestamp with time zone"@),
        PgDataType::Jsonb => Some("jsonb"@),
        PgDataType::Custom(_) => None,
    }
}

/// The `information_schema.columns.udt_name` that PostgreSQL reports for a
/// column of the built-in type `t`: `bool` for a boolean, and otherwise the
/// type's SQL name in lower case (none for a custom type).
pub open spec fn postgres_udt_name(t: PgDataType) -> Option<Seq<char>> {
    match t {
        PgDataType::Bool => Some("bool"@),
        PgDataType::Custom(_) => None,
        _ => Some(ascii_lower(sql_type_name(t))),
    }
}

/// The names above, written out, and what tells them apart.
proof fn lemma_postgres_names()
    ensures
        ascii_lower("USER-DEFINED"@).len() == 12,
        ascii_lower(sql_type_name(PgDataType::Int4)) == "int4"@,
        ascii_lower(sql_type_name(PgDataType::Int8)) == "int8"@,
        ascii_lower(sql_type_name(PgDataType::Float8)) == "float8"@,
        ascii_lower(sql_type_name(PgDataType::Text)) == "text"@,
        ascii_lower(sql_type_name(PgDataType::Uuid)) == "uuid"@,
        ascii_lower(sql_type_name(PgDataType::TimestampTz)) == "timestamptz"@,
        ascii_lower(sql_type_name(PgDataType::Jsonb)) == "jsonb"@,
        "boolean"@ != "integer"@,
        "text"@ != "uuid"@,
        "bool"@ != "int4"@ && "bool"@ != "int8"@ && "bool"@ != "text"@ && "bool"@ != "uuid"@,
        "int4"@ != "int8"@ && "int4"@ != "text"@ && "int4"@ != "uuid"@,
        "int8"@ != "text"@ && "int8"@ != "uuid"@,
        "boolean"@.len() == 7 && "integer"@.len() == 7 && "bigint"@.len() == 6 && "double precision"@.len() == 16,
        "text"@.len() == 4 && "uuid"@.len() == 4 && "timestamp with time zone"@.len() == 24 && "jsonb"@.len() == 5,
        "bool"@.len() == 4 && "int4"@.len() == 4 && "int8"@.len() == 4 && "float8"@.len() == 6,
        "timestamptz"@.len() == 11,
{
    reveal_strlit("USER-DEFINED");
    reveal_strlit("boolean");
    reveal_strlit("integer");
    reveal_strlit("bigint");
    reveal_strlit("double precision");
    reveal_strlit("text");
    reveal_strlit("uuid");
    reveal_strlit("timestamp with time zone");
    reveal_strlit("jsonb");
    reveal_strlit("bool");
    reveal_strlit("int4");
    reveal_strlit("int8");
    reveal_strlit("float8");
    reveal_strlit("timestamptz");
    reveal_strlit("INT4");
    reveal_strlit("INT8");
    reveal_strlit("FLOAT8");
    reveal_strlit("TEXT");
    reveal_strlit("UUID");
    reveal_strlit("TIMESTAMPTZ");
    reveal_strlit("JSONB");
    assert(ascii_lower("INT4"@) =~= "int4"@);
    assert(ascii_lower("INT8"@) =~= "int8"@);
    assert(ascii_lower("FLOAT8"@) =~= "float8"@);
    assert(ascii_lower("TEXT"@) =~= "text"@);
    assert(ascii_lower("UUID"@) =~= "uuid"@);
    assert(ascii_lower("TIMESTAMPTZ"@) =~= "timestamptz"@);
    assert(ascii_lower("JSONB"@) =~= "jsonb"@);
    assert("boolean"@[0] != "integer"@[0]);
    assert("text"@[0] != "uuid"@[0]);
    assert("bool"@[0] != "int4"@[0] && "bool"@[0] != "int8"@[0] && "bool"@[0] != "text"@[0] && "bool"@[0] != "uuid"@[0]);
    assert("int4"@[3] != "int8"@[3] && "int4"@[0] != "text"@[0] && "int4"@[0] != "uuid"@[0]);
    assert("int8"@[0] != "text"@[0] && "int8"@[0] != "uuid"@[0]);
}

/// A column of a built-in type, described as PostgreSQL describes it (its
/// `data_type`, in any ASCII case, and its `udt_name`), reads as that type;
/// the data type alone decides, whatever the UDT name.
pub proof fn lemma_data_type_names_its_type(t: PgDataType, data_type: Seq<char>, udt: Seq<char>, r: PgDataType)
    requires
        postgres_data_type(t) == Some(ascii_lower(data_type)),
        information_schema_type_matches(r, data_type, udt),
    ensures
        r == t,
{
    lemma_postgres_names();
}

/// A user-defined column whose `udt_name` (in any ASCII case) is the UDT name
/// of a built-in type reads as that type.
pub proof fn lemma_udt_name_names_its_type(t: PgDataType, udt: Seq<char>, r: PgDataType)
    requires
        postgres_udt_name(t) == Some(ascii_lower(udt)),
        information_schema_type_matches(r, "USER-DEFINED"@, udt),
    ensures
        r == t,
{
    lemma_postgres_names();
}

/// Distinct data types read as distinct types: the names PostgreSQL reports
/// for two built-in types differ exactly when the types do.
pub proof fn lemma_postgres_names_distinct(a: PgDataType, b: PgDataType)
    requires
        postgres_data_type(a) is Some,
        postgres_data_type(b) is Some,
    ensures
        (postgres_data_type(a) == postgres_data_type(b)) <==> a == b,
        (postgres_udt_name(a) == postgres_udt_name(b)) <==> a == b,
{
    lemma_postgres_names();
}

/// Whether `t` reads back from its own SQL name when that name is a
/// user-defined column's UDT name: every named type but `Bool` (whose name
/// `BOOLEAN` is not its UDT name `bool`), and a custom type whose name, in
/// lower case, is none of the known UDT names.
pub open spec fn reads_back_from_sql_name(t: PgDataType) -> bool {
    match t {
        PgDataType::Bool => false,
        PgDataType::Custom(s) => type_of_udt_name(ascii_lower(s@)) is None,
        _ => true,
    }
}

/// The type that `from_information_schema("USER-DEFINED", udt)` gives for
/// the SQL name of a type `t` that reads back is `t` again (a custom type by
/// the same name).
pub proof fn lemma_sql_name_reads_back(t: PgDataType, r: PgDataType)
    requires
        reads_back_from_sql_name(t),
        information_schema_type_matches(r, "USER-DEFINED"@, sql_type_name(t)),
    ensures
        match t {
            PgDataType::Custom(s) => r matches PgDataType::Custom(x) && x@ == s@,
            _ => r == t,
        },
{
    reveal_strlit("USER-DEFINED");
    reveal_strlit("boolean");
    reveal_strlit("integer");
    reveal_strlit("bigint");
    reveal_strlit("double precision");
    reveal_strlit("text");
    reveal_strlit("uuid");
    reveal_strlit("timestamp with time zone");
    reveal_strlit("jsonb");
    assert(ascii_lower("USER-DEFINED"@).len() == 12);
    assert(type_of_data_type(ascii_lower("USER-DEFINED"@)) is None);
    reveal_strlit("bool");
    reveal_strlit("int4");
    reveal_strlit("int8");
    reveal_strlit("float8");
    reveal_strlit("timestamptz");
    reveal_strlit("INT4");
    reveal_strlit("INT8");
    reveal_strlit("FLOAT8");
    reveal_strlit("TEXT");
    reveal_strlit("UUID");
    reveal_strlit("TIMESTAMPTZ");
    reveal_strlit("JSONB");
    match t {
        PgDataType::Int4 => {
            assert(ascii_lower("INT4"@) =~= "int4"@);
            assert("int4"@[0] != "bool"@[0]);
        },
        PgDataType::Int8 => {
            assert(ascii_lower("INT8"@) =~= "int8"@);
            assert("int8"@[0] != "bool"@[0] && "int8"@[3] != "int4"@[3]);
        },
        PgDataType::Float8 => assert(ascii_lower("FLOAT8"@) =~= "float8"@),
        PgDataType::Text => {
            assert(ascii_lower("TEXT"@) =~= "text"@);
            assert("text"@[0] != "bool"@[0] && "text"@[0] != "int4"@[0] && "text"@[0] != "int8"@[0]);
        },
        PgDataType::Uuid => {
            assert(ascii_lower("UUID"@) =~= "uuid"@);
            assert("uuid"@[0] != "bool"@[0] && "uuid"@[0] != "int4"@[0] && "uuid"@[0] != "int8"@[0]
                && "uuid"@[0] != "text"@[0]);
        },
        PgDataType::TimestampTz => assert(ascii_lower("TIMESTAMPTZ"@) =~= "timestamptz"@),
        PgDataType::Jsonb => assert(ascii_lower("JSONB"@) =~= "jsonb"@),
        _ => {},
    }
}

/// A column as declared when a table is created or altered.
#[derive(Clone, Debug)]
pub struct ColumnDef {
    pub name: String,
    pub data_type: PgDataType,
    pub nullable: bool,
    pub primary_key: bool,
    /// A raw SQL default expression such as "now()", "'abc'" or "0".
    pub default_sql: Option<String>,
}

impl ColumnDef {
    /// A nullable column without key or default.
    pub fn new(name: &str, data_type: PgDataType) -> (c: ColumnDef)
        ensures
            c.name@ == name@,
            c.data_type == data_type,
            c.nullable,
            !c.primary_key,
            c.default_sql is None,
    {
        ColumnDef { name: string_of(name), data_type, nullable: true, primary_key: false, default_sql: None }
    }
}

/// What the catalog remembers of a column.
#[derive(Clone, Debug)]
pub struct ColumnMeta {
    pub name: String,
    pub data_type: PgDataType,
    pub nullable: bool,
    pub primary_key: bool,
    pub default_sql: Option<String>,
}

impl ColumnMeta {
    /// The metadata of a declared column: the same fields.
    pub fn from_def(d: ColumnDef) -> (m: ColumnMeta)
        ensures
            m.name == d.name,
            m.data_type == d.data_type,
            m.nullable == d.nullable,
            m.primary_key == d.primary_key,
            m.default_sql == d.default_sql,
    {
        ColumnMeta {
            name: d.name,
            data_type: d.data_type,
            nullable: d.nullable,
            primary_key: d.primary_key,
            default_sql: d.default_sql,
        }
    }
}

impl From<ColumnDef> for ColumnMeta {
    /// The metadata of a declared column: the same fields.
    fn from(d: ColumnDef) -> (m: ColumnMeta) {
        ColumnMeta::from_def(d)
    }
}

impl vstd::std_specs::convert::FromSpecImpl<ColumnDef> for ColumnMeta {
    open spec fn obeys_from_spec() -> bool {
        true
    }

    open spec fn from_spec(d: ColumnDef) -> ColumnMeta {
        ColumnMeta {
            name: d.name,
            data_type: d.data_type,
            nullable: d.nullable,
            primary_key: d.primary_key,
            default_sql: d.default_sql,
        }
    }
}

/// What the catalog remembers of a table: its name and its columns by name.
pub struct TableMeta {
    pub name: String,
    pub columns: KeyedMap<ColumnMeta>,
}

/// Where a data id is stored: a table and, optionally, one of its columns.
#[derive(Clone, Debug)]
pub struct DataBinding {
    pub data_id: String,
    pub table: String,
    pub column: Option<String>,
}

/// The catalog of one database: its tables by name and its bindings by data id.
pub struct DbMetadata {
    pub db_name: String,
    pub tables: KeyedMap<TableMeta>,
    pub bindings: KeyedMap<DataBinding>,
}

impl DbMetadata {
    /// Both maps keep their keys distinct.
    pub open spec fn wf(&self) -> bool {
        &&& self.tables.wf()
        &&& self.bindings.wf()
        &&& forall|t: Seq<char>| #[trigger] self.tables@.contains_key(t) ==> self.tables@[t].columns.wf()
    }

    /// An empty catalog for the database `db_name`.
    pub fn new(db_name: &str) -> (m: DbMetadata)
        ensures
            m.wf(),
            m.db_name@ == db_name@,
            m.tables@ == Map::<Seq<char>, TableMeta>::empty(),
            m.bindings@ == Map::<Seq<char>, DataBinding>::empty(),
    {
        DbMetadata { db_name: string_of(db_name), tables: KeyedMap::new(), bindings: KeyedMap::new() }
    }
}

} // verus!
