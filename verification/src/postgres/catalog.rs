//! The metadata catalog of a PostgreSQL database and the statements that keep
//! the database and the catalog in step.

use vstd::prelude::*;
use crate::keyed_map::KeyedMap;
use crate::postgres::types::{ColumnDef, ColumnMeta, DataBinding, DbMetadata, TableMeta, sql_type_name};
use crate::text::{chars_of, string_of, string_from_chars};

verus! {

#[verifier::external_type_specification]
#[verifier::external_body]
pub struct ExPostgresError(tokio_postgres::Error);

#[verifier::external_type_specification]
#[verifier::external_body]
pub struct ExJsonError(serde_json::Error);

/// The table in which the catalog itself is persisted.
pub const METADATA_TABLE: &'static str = "dt_metadata";

/// Creates the table of persisted catalogs: one row per database name.
pub const METADATA_TABLE_DDL: &'static str = "CREATE TABLE IF NOT EXISTS dt_metadata (db_name TEXT PRIMARY KEY, metadata JSONB NOT NULL, updated_at TIMESTAMPTZ NOT NULL DEFAULT now())";

/// Reads the persisted catalog of the database `$1`.
pub const METADATA_SELECT_SQL: &'static str = "SELECT metadata FROM dt_metadata WHERE db_name = $1";

/// Persists the catalog `$2` of the database `$1`.
pub const METADATA_UPSERT_SQL: &'static str = "INSERT INTO dt_metadata (db_name, metadata, updated_at) VALUES ($1, $2, now()) ON CONFLICT (db_name) DO UPDATE SET metadata = EXCLUDED.metadata, updated_at = now()";

/// Why a database operation failed.
#[derive(Debug)]
pub enum DbError {
    /// The submit queue was full and the command was dropped.
    QueueFull,
    /// The database reported an error.
    Postgres(tokio_postgres::Error),
    /// The identifier is not of the form `[A-Za-z_][A-Za-z0-9_]*`.
    InvalidIdentifier(String),
    NotFound(String),
    AlreadyExists(String),
    /// The worker that runs the commands has stopped.
    WorkerClosed,
    /// The catalog could not be (de)serialized.
    Serde(serde_json::Error),
}

/// Whether `c` may start an identifier: an ASCII letter or `_`.
pub open spec fn is_ident_start(c: char) -> bool {
    ('A' <= c && c <= 'Z') || ('a' <= c && c <= 'z') || c == '_'
}

/// Whether `c` may continue an identifier: an ASCII letter, digit or `_`.
pub open spec fn is_ident_char(c: char) -> bool {
    is_ident_start(c) || ('0' <= c && c <= '9')
}

/// Whether `s` is an identifier of the form `[A-Za-z_][A-Za-z0-9_]*`, the only
/// names this catalog splices into SQL.
pub open spec fn is_identifier(s: Seq<char>) -> bool {
    &&& s.len() > 0
    &&& is_ident_start(s[0])
    &&& forall|i: int| 1 <= i < s.len() ==> is_ident_char(#[trigger] s[i])
}

/// `r` is the error that rejects the name `s`.
pub open spec fn rejects_identifier<T>(r: Result<T, DbError>, s: Seq<char>) -> bool {
    r matches Err(DbError::InvalidIdentifier(t)) && t@ == s
}

/// Accepts `s` if it is an identifier, else fails with `InvalidIdentifier(s)`.
pub fn validate_ident(s: &str) -> (r: Result<(), DbError>)
    ensures
        is_identifier(s@) ==> r is Ok,
        !is_identifier(s@) ==> rejects_identifier(r, s@),
{
    let v = chars_of(s);
    if v.len() == 0 {
        return Err(DbError::InvalidIdentifier(string_of(s)));
    }
    let first = v[0];
    let ok_first = ('A' <= first && first <= 'Z') || ('a' <= first && first <= 'z') || first == '_';
    let mut ok_rest = true;
    let mut i: usize = 1;
    while i < v.len()
        invariant
            1 <= i <= v@.len(),
            ok_rest == forall|k: int| 1 <= k < i ==> is_ident_char(#[trigger] v@[k]),
        decreases v.len() - i,
    {
        let c = v[i];
        let ok = ('A' <= c && c <= 'Z') || ('a' <= c && c <= 'z') || c == '_' || ('0' <= c && c
            <= '9');
        proof {
            if !ok_rest {
                let k = choose|k: int| 1 <= k < i && !is_ident_char(#[trigger] v@[k]);
                assert(!is_ident_char(v@[k]));
            }
        }
        ok_rest = ok_rest && ok;
        i = i + 1;
    }
    if ok_first && ok_rest {
        Ok(())
    } else {
        Err(DbError::InvalidIdentifier(string_of(s)))
    }
}

/// Appends `s` to `buf`.
fn push_text(buf: &mut String, s: &str)
    ensures
        final(buf)@ == old(buf)@ + s@,
{
    buf.append(s);
}

/// The decimal digit character for `d` (below 10).
pub open spec fn digit_char(d: nat) -> char {
    ((d + 48) as u32) as char
}

/// The decimal representation of `n`, without leading zeros.
pub open spec fn decimal(n: nat) -> Seq<char>
    decreases n,
{
    if n < 10 {
        seq![digit_char(n)]
    } else {
        decimal(n / 10) + seq![digit_char(n % 10)]
    }
}

/// The decimal representation of `n`.
pub fn decimal_string(n: usize) -> (s: Vec<char>)
    ensures
        s@ == decimal(n as nat),
    decreases n,
{
    let d = (n % 10) as u8;
    let c = (d + 48) as char;
    if n < 10 {
        let mut v: Vec<char> = Vec::new();
        v.push(c);
        v
    } else {
        let mut v = decimal_string(n / 10);
        v.push(c);
        v
    }
}

/// The items of `parts` separated by `sep`, as `[T]::join` returns them.
pub open spec fn join_with(parts: Seq<Seq<char>>, sep: Seq<char>) -> Seq<char>
    decreases parts.len(),
{
    if parts.len() == 0 {
        Seq::empty()
    } else if parts.len() == 1 {
        parts[0]
    } else {
        join_with(parts.drop_last(), sep) + sep + parts.last()
    }
}

/// The DDL fragment that declares column `c`: name, type, then default,
/// `NOT NULL` and `PRIMARY KEY` where they apply.
pub open spec fn column_sql(c: ColumnDef) -> Seq<char> {
    c.name@ + " "@ + sql_type_name(c.data_type) + (match c.default_sql {
        Some(d) => " DEFAULT "@ + d@,
        None => Seq::empty(),
    }) + (if !c.nullable {
        " NOT NULL"@
    } else {
        Seq::empty()
    }) + (if c.primary_key {
        " PRIMARY KEY"@
    } else {
        Seq::empty()
    })
}

/// The index of the first column whose name is not an identifier, if any.
pub open spec fn first_invalid_column(cols: Seq<ColumnDef>) -> Option<int> {
    if exists|i: int| 0 <= i < cols.len() && !is_identifier(#[trigger] cols[i].name@) {
        Some(choose|i: int| 0 <= i < cols.len() && !is_identifier(#[trigger] cols[i].name@)
            && forall|j: int| 0 <= j < i ==> is_identifier(#[trigger] cols[j].name@))
    } else {
        None
    }
}

/// The column list of a `CREATE TABLE` statement for `cols`.
pub open spec fn columns_sql(cols: Seq<ColumnDef>) -> Seq<char> {
    join_with(cols.map_values(|c: ColumnDef| column_sql(c)), ", "@)
}

/// The outcome of joining `cols` into a column list: the first column whose
/// name is not an identifier is rejected, else the list is returned.
pub open spec fn join_columns_result(r: Result<String, DbError>, cols: Seq<ColumnDef>) -> bool {
    match first_invalid_column(cols) {
        Some(i) => rejects_identifier(r, cols[i].name@),
        None => r matches Ok(s) && s@ == columns_sql(cols),
    }
}

proof fn lemma_first_invalid_column(cols: Seq<ColumnDef>, i: int)
    requires
        0 <= i < cols.len(),
        !is_identifier(cols[i].name@),
        forall|j: int| 0 <= j < i ==> is_identifier(#[trigger] cols[j].name@),
    ensures
        first_invalid_column(cols) == Some(i),
{
    let k = choose|k: int| 0 <= k < cols.len() && !is_identifier(#[trigger] cols[k].name@)
        && forall|j: int| 0 <= j < k ==> is_identifier(#[trigger] cols[j].name@);
    assert(0 <= i < cols.len() && !is_identifier(cols[i].name@) && forall|j: int|
        0 <= j < i ==> is_identifier(#[trigger] cols[j].name@));
    if k < i {
        assert(is_identifier(cols[k].name@));
    }
    if i < k {
        assert(is_identifier(cols[i].name@));
    }
}

/// The DDL fragment that declares column `c`.
fn column_sql_exec(c: &ColumnDef) -> (s: String)
    ensures
        s@ == column_sql(*c),
{
    let mut part = c.name.clone();
    push_text(&mut part, " ");
    let ty = c.data_type.to_sql();
    push_text(&mut part, ty.as_str());
    match &c.default_sql {
        Some(d) => {
            push_text(&mut part, " DEFAULT ");
            push_text(&mut part, d.as_str());
        },
        None => {},
    }
    if !c.nullable {
        push_text(&mut part, " NOT NULL");
    }
    if c.primary_key {
        push_text(&mut part, " PRIMARY KEY");
    }
    proof {
        assert(part@ =~= column_sql(*c));
    }
    part
}

/// Joins the column declarations into the column list of a `CREATE TABLE`
/// statement, rejecting the first column whose name is not an identifier.
pub fn join_columns(cols: &Vec<ColumnDef>) -> (r: Result<String, DbError>)
    ensures
        join_columns_result(r, cols@),
{
    let mut out = String::new();
    let mut i: usize = 0;
    let ghost parts = cols@.map_values(|c: ColumnDef| column_sql(c));
    while i < cols.len()
        invariant
            i <= cols@.len(),
            parts == cols@.map_values(|c: ColumnDef| column_sql(c)),
            out@ == join_with(parts.take(i as int), ", "@),
            forall|j: int| 0 <= j < i ==> is_identifier(#[trigger] cols@[j].name@),
        decreases cols.len() - i,
    {
        let c = &cols[i];
        match validate_ident(c.name.as_str()) {
            Ok(()) => {},
            Err(e) => {
                proof {
                    lemma_first_invalid_column(cols@, i as int);
                }
                return Err(e);
            },
        }
        let part = column_sql_exec(c);
        if i > 0 {
            push_text(&mut out, ", ");
        }
        push_text(&mut out, part.as_str());
        proof {
            assert(parts.take(i + 1).drop_last() =~= parts.take(i as int));
            if i == 0 {
                assert(out@ =~= join_with(parts.take(1), ", "@));
            }
        }
        i = i + 1;
    }
    proof {
        assert(parts.take(cols@.len() as int) =~= parts);
        assert(first_invalid_column(cols@) is None);
    }
    Ok(out)
}

/// Whether `table` names the table in which the catalog is persisted.
pub open spec fn is_metadata_table(table: Seq<char>) -> bool {
    table == "dt_metadata"@
}

/// Whether the schema statements may name `table`: an identifier other than
/// the catalog's own table.
pub open spec fn is_user_table(table: Seq<char>) -> bool {
    is_identifier(table) && !is_metadata_table(table)
}

/// Whether `a` and `b` hold the same text.
fn str_eq(a: &str, b: &str) -> (r: bool)
    ensures
        r == (a@ == b@),
{
    let x = string_of(a);
    let y = string_of(b);
    x == y
}

/// Accepts a table the schema statements may change, else rejects its name.
fn check_user_table(table: &str) -> (r: Result<(), DbError>)
    ensures
        is_user_table(table@) ==> r is Ok,
        !is_user_table(table@) ==> rejects_identifier(r, table@),
{
    validate_ident(table)?;
    if str_eq(table, METADATA_TABLE) {
        return Err(DbError::InvalidIdentifier(string_of(table)));
    }
    Ok(())
}

/// The statement that creates `table` with `columns` unless it exists.
pub open spec fn create_table_sql(table: Seq<char>, cols: Seq<ColumnDef>) -> Seq<char> {
    "CREATE TABLE IF NOT EXISTS "@ + table + " ("@ + columns_sql(cols) + ")"@
}

/// The statement that creates `table` with `columns`. The table must be a user
/// table and every column name an identifier; the first name that fails is
/// rejected.
pub fn create_table_statement(table: &str, columns: &Vec<ColumnDef>) -> (r: Result<String, DbError>)
    ensures
        !is_user_table(table@) ==> rejects_identifier(r, table@),
        is_user_table(table@) ==> match first_invalid_column(columns@) {
            Some(i) => rejects_identifier(r, columns@[i].name@),
            None => r matches Ok(s) && s@ == create_table_sql(table@, columns@),
        },
{
    check_user_table(table)?;
    let cols = join_columns(columns)?;
    let mut sql = string_of("CREATE TABLE IF NOT EXISTS ");
    push_text(&mut sql, table);
    push_text(&mut sql, " (");
    push_text(&mut sql, cols.as_str());
    push_text(&mut sql, ")");
    Ok(sql)
}

/// The statement that drops `table`, with what depends on it, if it exists.
pub open spec fn drop_table_sql(table: Seq<char>) -> Seq<char> {
    "DROP TABLE IF EXISTS "@ + table + " CASCADE"@
}

/// The statement that drops `table`, which must be a user table.
pub fn drop_table_statement(table: &str) -> (r: Result<String, DbError>)
    ensures
        !is_user_table(table@) ==> rejects_identifier(r, table@),
        is_user_table(table@) ==> (r matches Ok(s) && s@ == drop_table_sql(table@)),
{
    check_user_table(table)?;
    let mut sql = string_of("DROP TABLE IF EXISTS ");
    push_text(&mut sql, table);
    push_text(&mut sql, " CASCADE");
    Ok(sql)
}

/// The statement that adds `c` to `table` unless it has such a column: name,
/// type, then default and `NOT NULL` where they apply (a primary key is not
/// added this way).
pub open spec fn add_column_sql(table: Seq<char>, c: ColumnDef) -> Seq<char> {
    "ALTER TABLE "@ + table + " ADD COLUMN IF NOT EXISTS "@ + c.name@ + " "@ + sql_type_name(
        c.data_type,
    ) + (match c.default_sql {
        Some(d) => " DEFAULT "@ + d@,
        None => Seq::empty(),
    }) + (if !c.nullable {
        " NOT NULL"@
    } else {
        Seq::empty()
    })
}

/// The checks on a statement that names `table` and then `column`: the
/// table's name, then the column's, then that the table is not the catalog's own.
pub open spec fn table_column_check<T>(r: Result<T, DbError>, table: Seq<char>, column: Seq<char>) -> bool {
    if !is_identifier(table) {
        rejects_identifier(r, table)
    } else if !is_identifier(column) {
        rejects_identifier(r, column)
    } else if is_metadata_table(table) {
        rejects_identifier(r, table)
    } else {
        true
    }
}

/// Whether the checks of `table_column_check` pass.
pub open spec fn table_column_ok(table: Seq<char>, column: Seq<char>) -> bool {
    is_user_table(table) && is_identifier(column)
}

/// The statement that adds `column` to `table`.
pub fn add_column_statement(table: &str, column: &ColumnDef) -> (r: Result<String, DbError>)
    ensures
        table_column_check(r, table@, column.name@),
        table_column_ok(table@, column.name@) ==> (r matches Ok(s) && s@ == add_column_sql(
            table@,
            *column,
        )),
{
    validate_ident(table)?;
    validate_ident(column.name.as_str())?;
    if str_eq(table, METADATA_TABLE) {
        return Err(DbError::InvalidIdentifier(string_of(table)));
    }
    let mut sql = string_of("ALTER TABLE ");
    push_text(&mut sql, table);
    push_text(&mut sql, " ADD COLUMN IF NOT EXISTS ");
    push_text(&mut sql, column.name.as_str());
    push_text(&mut sql, " ");
    let ty = column.data_type.to_sql();
    push_text(&mut sql, ty.as_str());
    match &column.default_sql {
        Some(d) => {
            push_text(&mut sql, " DEFAULT ");
            push_text(&mut sql, d.as_str());
        },
        None => {},
    }
    if !column.nullable {
        push_text(&mut sql, " NOT NULL");
    }
    proof {
        assert(sql@ =~= add_column_sql(table@, *column));
    }
    Ok(sql)
}

/// The statement that drops `column` from `table` if it has it.
pub open spec fn drop_column_sql(table: Seq<char>, column: Seq<char>) -> Seq<char> {
    "ALTER TABLE "@ + table + " DROP COLUMN IF EXISTS "@ + column
}

/// The statement that drops `column` from `table`.
pub fn drop_column_statement(table: &str, column: &str) -> (r: Result<String, DbError>)
    ensures
        table_column_check(r, table@, column@),
        table_column_ok(table@, column@) ==> (r matches Ok(s) && s@ == drop_column_sql(table@, column@)),
{
    validate_ident(table)?;
    validate_ident(column)?;
    if str_eq(table, METADATA_TABLE) {
        return Err(DbError::InvalidIdentifier(string_of(table)));
    }
    let mut sql = string_of("ALTER TABLE ");
    push_text(&mut sql, table);
    push_text(&mut sql, " DROP COLUMN IF EXISTS ");
    push_text(&mut sql, column);
    Ok(sql)
}

/// The placeholders `$1, $2, ..., $n`.
pub open spec fn placeholders(n: nat) -> Seq<char>
    decreases n,
{
    if n == 0 {
        Seq::empty()
    } else if n == 1 {
        "$"@ + decimal(1)
    } else {
        placeholders((n - 1) as nat) + ", "@ + "$"@ + decimal(n)
    }
}

/// The index of the first name that is not an identifier, if any.
pub open spec fn first_invalid_name(names: Seq<String>) -> Option<int> {
    if exists|i: int| 0 <= i < names.len() && !is_identifier(#[trigger] names[i]@) {
        Some(choose|i: int| 0 <= i < names.len() && !is_identifier(#[trigger] names[i]@)
            && forall|j: int| 0 <= j < i ==> is_identifier(#[trigger] names[j]@))
    } else {
        None
    }
}

proof fn lemma_first_invalid_name(names: Seq<String>, i: int)
    requires
        0 <= i < names.len(),
        !is_identifier(names[i]@),
        forall|j: int| 0 <= j < i ==> is_identifier(#[trigger] names[j]@),
    ensures
        first_invalid_name(names) == Some(i),
{
    let k = choose|k: int| 0 <= k < names.len() && !is_identifier(#[trigger] names[k]@)
        && forall|j: int| 0 <= j < k ==> is_identifier(#[trigger] names[j]@);
    assert(0 <= i < names.len() && !is_identifier(names[i]@) && forall|j: int|
        0 <= j < i ==> is_identifier(#[trigger] names[j]@));
    if k < i {
        assert(is_identifier(names[k]@));
    }
    if i < k {
        assert(is_identifier(names[i]@));
    }
}

/// The statement that inserts one row into `table`, binding the values of
/// `columns` to the placeholders `$1`, `$2`, ... in order.
pub open spec fn insert_sql(table: Seq<char>, columns: Seq<String>) -> Seq<char> {
    "INSERT INTO "@ + table + " ("@ + join_with(columns.map_values(|c: String| c@), ", "@)
        + ") VALUES ("@ + placeholders(columns.len()) + ")"@
}

/// The outcome of building an insert into `table` for `columns`, past the
/// check on the table: the first column name that is not an identifier is
/// rejected, else the statement is returned.
pub open spec fn insert_columns_result(r: Result<String, DbError>, table: Seq<char>, columns: Seq<String>) -> bool {
    match first_invalid_name(columns) {
        Some(i) => rejects_identifier(r, columns[i]@),
        None => r matches Ok(s) && s@ == insert_sql(table, columns),
    }
}

/// The insert statement for a non-empty list of columns of a valid table.
fn insert_columns(table: &str, columns: &Vec<String>) -> (r: Result<String, DbError>)
    requires
        columns@.len() > 0,
    ensures
        insert_columns_result(r, table@, columns@),
{
    let mut names = String::new();
    let mut marks = String::new();
    let mut i: usize = 0;
    let ghost views = columns@.map_values(|c: String| c@);
    while i < columns.len()
        invariant
            i <= columns@.len(),
            views == columns@.map_values(|c: String| c@),
            names@ == join_with(views.take(i as int), ", "@),
            marks@ == placeholders(i as nat),
            forall|j: int| 0 <= j < i ==> is_identifier(#[trigger] columns@[j]@),
        decreases columns.len() - i,
    {
        match validate_ident(columns[i].as_str()) {
            Ok(()) => {},
            Err(e) => {
                proof {
                    lemma_first_invalid_name(columns@, i as int);
                }
                return Err(e);
            },
        }
        if i > 0 {
            push_text(&mut names, ", ");
            push_text(&mut marks, ", ");
        }
        push_text(&mut names, columns[i].as_str());
        push_text(&mut marks, "$");
        let num = string_from_chars(&decimal_string(i + 1));
        push_text(&mut marks, num.as_str());
        proof {
            assert(views.take(i + 1).drop_last() =~= views.take(i as int));
            if i == 0 {
                assert(names@ =~= join_with(views.take(1), ", "@));
                assert(marks@ =~= placeholders(1));
            } else {
                assert(marks@ =~= placeholders((i + 1) as nat));
            }
        }
        i = i + 1;
    }
    proof {
        assert(views.take(columns@.len() as int) =~= views);
        assert(first_invalid_name(columns@) is None);
    }
    let mut sql = string_of("INSERT INTO ");
    push_text(&mut sql, table);
    push_text(&mut sql, " (");
    push_text(&mut sql, names.as_str());
    push_text(&mut sql, ") VALUES (");
    push_text(&mut sql, marks.as_str());
    push_text(&mut sql, ")");
    proof {
        assert(sql@ =~= insert_sql(table@, columns@));
    }
    Ok(sql)
}

/// The statement that inserts a row of `columns` into `table`, for a caller
/// that waits for the result. The table name is checked first; a row without
/// values fails with `NotFound("no values to insert")`; then each column name
/// is checked in order.
pub fn insert_row_statement(table: &str, columns: &Vec<String>) -> (r: Result<String, DbError>)
    ensures
        !is_identifier(table@) ==> rejects_identifier(r, table@),
        is_identifier(table@) && columns@.len() == 0 ==> (r matches Err(DbError::NotFound(m)) && m@
            == "no values to insert"@),
        is_identifier(table@) && columns@.len() > 0 ==> insert_columns_result(r, table@, columns@),
{
    validate_ident(table)?;
    if columns.len() == 0 {
        return Err(DbError::NotFound(string_of("no values to insert")));
    }
    insert_columns(table, columns)
}

/// The statement that inserts a row of `columns` into `table`, for a
/// fire-and-forget caller: as `insert_row_statement`, except that a row without
/// values is no error and gives no statement.
pub fn insert_row_statement_no_ack(table: &str, columns: &Vec<String>) -> (r: Result<Option<String>, DbError>)
    ensures
        !is_identifier(table@) ==> rejects_identifier(r, table@),
        is_identifier(table@) && columns@.len() == 0 ==> r == Ok::<Option<String>, DbError>(None),
        is_identifier(table@) && columns@.len() > 0 ==> match first_invalid_name(columns@) {
            Some(i) => rejects_identifier(r, columns@[i]@),
            None => r matches Ok(Some(s)) && s@ == insert_sql(table@, columns@),
        },
{
    validate_ident(table)?;
    if columns.len() == 0 {
        return Ok(None);
    }
    let sql = insert_columns(table, columns)?;
    Ok(Some(sql))
}

/// The catalog's record of a declared column.
pub open spec fn meta_of(c: ColumnDef) -> ColumnMeta {
    ColumnMeta {
        name: c.name,
        data_type: c.data_type,
        nullable: c.nullable,
        primary_key: c.primary_key,
        default_sql: c.default_sql,
    }
}

/// The columns of a table created with `cols`, by name; a later column of
/// the same name replaces an earlier one.
pub open spec fn column_defs_map(cols: Seq<ColumnDef>) -> Map<Seq<char>, ColumnMeta>
    decreases cols.len(),
{
    if cols.len() == 0 {
        Map::empty()
    } else {
        column_defs_map(cols.drop_last()).insert(cols.last().name@, meta_of(cols.last()))
    }
}

/// The catalog's record of the columns `columns`.
pub fn columns_map(columns: Vec<ColumnDef>) -> (m: KeyedMap<ColumnMeta>)
    ensures
        m.wf(),
        m@ == column_defs_map(columns@),
{
    let mut m: KeyedMap<ColumnMeta> = KeyedMap::new();
    let mut rest = columns;
    let ghost all = rest@;
    let ghost mut i: int = 0;
    while rest.len() > 0
        invariant
            m.wf(),
            0 <= i <= all.len(),
            rest@ == all.skip(i),
            m@ == column_defs_map(all.take(i)),
        decreases rest.len(),
    {
        let c = rest.remove(0);
        proof {
            assert(c == all[i]);
            assert(all.take(i + 1).drop_last() =~= all.take(i));
            assert(rest@ =~= all.skip(i + 1));
        }
        let name = c.name.clone();
        m.insert(name, ColumnMeta::from_def(c));
        proof {
            i = i + 1;
        }
    }
    proof {
        assert(all.take(i) =~= all);
    }
    m
}

/// Whether binding `b` refers to a table of `tables` and, when it names a
/// column, to a column of that table.
pub open spec fn binding_valid(tables: Map<Seq<char>, TableMeta>, b: DataBinding) -> bool {
    &&& tables.contains_key(b.table@)
    &&& (b.column matches Some(c) ==> tables[b.table@].columns@.contains_key(c@))
}

/// The bindings of `bindings` that are valid against `tables`.
pub open spec fn pruned(tables: Map<Seq<char>, TableMeta>, bindings: Map<Seq<char>, DataBinding>) -> Map<
    Seq<char>,
    DataBinding,
> {
    Map::new(
        |k: Seq<char>| bindings.contains_key(k) && binding_valid(tables, bindings[k]),
        |k: Seq<char>| bindings[k],
    )
}

/// Every binding of the catalog refers to an existing table and, when it
/// names a column, to an existing column of that table.
pub open spec fn bindings_consistent(md: DbMetadata) -> bool {
    forall|k: Seq<char>| #[trigger] md.bindings@.contains_key(k) ==> binding_valid(md.tables@, md.bindings@[k])
}

/// Which bindings to keep.
enum Keep {
    /// Those valid against the tables.
    Valid,
    /// Those of other tables than this one.
    OtherTable(String),
    /// Those that do not name this column of this table.
    OtherColumn(String, String),
}

spec fn keeps(keep: Keep, tables: Map<Seq<char>, TableMeta>, b: DataBinding) -> bool {
    match keep {
        Keep::Valid => binding_valid(tables, b),
        Keep::OtherTable(t) => b.table@ != t@,
        Keep::OtherColumn(t, c) => !(b.table@ == t@ && (b.column matches Some(x) && x@ == c@)),
    }
}

spec fn kept(keep: Keep, tables: Map<Seq<char>, TableMeta>, bindings: Map<Seq<char>, DataBinding>) -> Map<
    Seq<char>,
    DataBinding,
> {
    Map::new(
        |k: Seq<char>| bindings.contains_key(k) && keeps(keep, tables, bindings[k]),
        |k: Seq<char>| bindings[k],
    )
}

fn keeps_exec(keep: &Keep, tables: &KeyedMap<TableMeta>, b: &DataBinding) -> (r: bool)
    requires
        tables.wf(),
        forall|t: Seq<char>| #[trigger] tables@.contains_key(t) ==> tables@[t].columns.wf(),
    ensures
        r == keeps(*keep, tables@, *b),
{
    match keep {
        Keep::Valid => match tables.get(b.table.as_str()) {
            None => false,
            Some(t) => match &b.column {
                None => true,
                Some(c) => t.columns.contains_key(c.as_str()),
            },
        },
        Keep::OtherTable(t) => !(b.table == *t),
        Keep::OtherColumn(t, c) => {
            if b.table == *t {
                match &b.column {
                    Some(x) => !(*x == *c),
                    None => true,
                }
            } else {
                true
            }
        },
    }
}

/// Whether `k` is among the first `j` names of `names`.
spec fn listed_before(names: Seq<String>, j: int, k: Seq<char>) -> bool {
    exists|m: int| 0 <= m < j && (#[trigger] names[m])@ == k
}

impl DbMetadata {
    fn retain_bindings(&mut self, keep: Keep)
        requires
            old(self).wf(),
        ensures
            final(self).wf(),
            final(self).db_name == old(self).db_name,
            final(self).tables == old(self).tables,
            final(self).bindings@ == kept(keep, old(self).tables@, old(self).bindings@),
    {
        let ghost orig = self.bindings@;
        let n = self.bindings.key_count();
        let mut doomed: Vec<String> = Vec::new();
        let mut i: usize = 0;
        proof {
            self.bindings.lemma_key_list();
        }
        while i < n
            invariant
                self.wf(),
                self.db_name == old(self).db_name,
                self.tables == old(self).tables,
                self.bindings == old(self).bindings,
                self.bindings@ == orig,
                n == self.bindings.key_list().len(),
                i <= n,
                forall|m: int| 0 <= m < doomed@.len() ==> orig.contains_key(#[trigger] doomed@[m]@)
                    && !keeps(keep, self.tables@, orig[doomed@[m]@]),
                forall|j: int| 0 <= j < i ==> keeps(keep, self.tables@, orig[#[trigger] self.bindings.key_list()[j]])
                    || listed_before(doomed@, doomed@.len() as int, self.bindings.key_list()[j]),
            decreases n - i,
        {
            let ghost old_doomed = doomed@;
            let b = self.bindings.value_at(i);
            if !keeps_exec(&keep, &self.tables, b) {
                let k = self.bindings.key_at(i).clone();
                doomed.push(k);
                proof {
                    assert(doomed@[doomed@.len() - 1]@ == self.bindings.key_list()[i as int]);
                }
            }
            proof {
                assert forall|j: int| 0 <= j < i + 1 implies keeps(keep, self.tables@, orig[#[trigger] self.bindings.key_list()[j]])
                    || listed_before(doomed@, doomed@.len() as int, self.bindings.key_list()[j]) by {
                    if j < i {
                        if !keeps(keep, self.tables@, orig[self.bindings.key_list()[j]]) {
                            let m = choose|m: int| 0 <= m < old_doomed.len() && (#[trigger] old_doomed[m])@ == self.bindings.key_list()[j];
                            assert(doomed@[m] == old_doomed[m]);
                        }
                    } else {
                        if !keeps(keep, self.tables@, orig[self.bindings.key_list()[j]]) {
                            assert(doomed@[doomed@.len() - 1]@ == self.bindings.key_list()[j]);
                        }
                    }
                }
            }
            i = i + 1;
        }
        let ghost tables = self.tables@;
        let ghost doomed_all = doomed@;
        proof {
            assert forall|k: Seq<char>| orig.contains_key(k) && !keeps(keep, tables, orig[k]) implies #[trigger] listed_before(
                doomed_all,
                doomed_all.len() as int,
                k,
            ) by {
                assert(self.bindings.key_list().to_set().contains(k));
                let j = choose|j: int| 0 <= j < self.bindings.key_list().len() && self.bindings.key_list()[j] == k;
                assert(keeps(keep, tables, orig[self.bindings.key_list()[j]]) || listed_before(doomed@, doomed@.len() as int, self.bindings.key_list()[j]));
            }
        }
        let mut j: usize = 0;
        proof {
            assert(self.bindings@ =~= Map::new(
                |k: Seq<char>| orig.contains_key(k) && !listed_before(doomed_all, 0, k),
                |k: Seq<char>| orig[k],
            ));
        }
        while j < doomed.len()
            invariant
                self.wf(),
                self.db_name == old(self).db_name,
                self.tables == old(self).tables,
                self.tables@ == tables,
                doomed@ == doomed_all,
                j <= doomed@.len(),
                self.bindings@ == Map::new(
                    |k: Seq<char>| orig.contains_key(k) && !listed_before(doomed_all, j as int, k),
                    |k: Seq<char>| orig[k],
                ),
            decreases doomed.len() - j,
        {
            self.bindings.remove(doomed[j].as_str());
            proof {
                assert forall|k: Seq<char>| #[trigger] listed_before(doomed_all, j + 1, k)
                    <==> (listed_before(doomed_all, j as int, k) || k == doomed_all[j as int]@) by {
                    if listed_before(doomed_all, j + 1, k) {
                        let m = choose|m: int| 0 <= m < j + 1 && (#[trigger] doomed_all[m])@ == k;
                        if m < j {
                            assert(doomed_all[m]@ == k);
                        }
                    }
                    if k == doomed_all[j as int]@ {
                        assert(doomed_all[j as int]@ == k);
                    }
                }
                assert(self.bindings@ =~= Map::new(
                    |k: Seq<char>| orig.contains_key(k) && !listed_before(doomed_all, j + 1, k),
                    |k: Seq<char>| orig[k],
                ));
            }
            j = j + 1;
        }
        proof {
            assert forall|k: Seq<char>| #[trigger] orig.contains_key(k) implies (!listed_before(
                doomed_all,
                doomed_all.len() as int,
                k,
            ) <==> keeps(keep, tables, orig[k])) by {
                if listed_before(doomed_all, doomed_all.len() as int, k) {
                    let m = choose|m: int| 0 <= m < doomed_all.len() && (#[trigger] doomed_all[m])@ == k;
                    assert(!keeps(keep, tables, orig[doomed_all[m]@]));
                }
            }
            assert(self.bindings@ =~= kept(keep, tables, orig));
        }
    }
}

/// Removes the bindings that refer to a missing table or column.
pub fn prune_bindings_against_schema(md: &mut DbMetadata)
    requires
        old(md).wf(),
    ensures
        final(md).wf(),
        final(md).db_name == old(md).db_name,
        final(md).tables == old(md).tables,
        final(md).bindings@ == pruned(old(md).tables@, old(md).bindings@),
        bindings_consistent(*final(md)),
{
    md.retain_bindings(Keep::Valid);
    proof {
        assert(md.bindings@ =~= pruned(old(md).tables@, old(md).bindings@));
    }
}

/// The ids whose data the database manages, as a set of keys.
pub fn keys_of<V>(m: &KeyedMap<V>) -> (ids: KeyedMap<()>)
    requires
        m.wf(),
    ensures
        ids.wf(),
        ids@.dom() == m@.dom(),
{
    let mut ids: KeyedMap<()> = KeyedMap::new();
    let n = m.key_count();
    let mut i: usize = 0;
    proof {
        m.lemma_key_list();
    }
    while i < n
        invariant
            m.wf(),
            ids.wf(),
            n == m.key_list().len(),
            i <= n,
            ids@.dom() == m.key_list().take(i as int).to_set(),
        decreases n - i,
    {
        let k = m.key_at(i).clone();
        ids.insert(k, ());
        proof {
            assert(m.key_list().take(i + 1).to_set() =~= m.key_list().take(i as int).to_set().insert(
                m.key_list()[i as int],
            )) by {
                assert(m.key_list().take(i + 1) =~= m.key_list().take(i as int).push(m.key_list()[i as int]));
                m.key_list().take(i as int).lemma_push_to_set_commute(m.key_list()[i as int]);
            }
            assert(ids@.dom() =~= m.key_list().take(i + 1).to_set());
        }
        i = i + 1;
    }
    proof {
        assert(m.key_list().take(n as int) =~= m.key_list());
    }
    ids
}

/// The state that the database worker keeps: the catalog and the set of
/// managed data ids.
pub struct Catalog {
    pub metadata: DbMetadata,
    pub managed_ids: KeyedMap<()>,
}

impl Catalog {
    /// Both parts keep their invariants.
    pub open spec fn wf(&self) -> bool {
        self.metadata.wf() && self.managed_ids.wf()
    }

    /// The managed data ids.
    pub open spec fn managed(&self) -> Set<Seq<char>> {
        self.managed_ids@.dom()
    }

    /// The catalog built at start-up: the tables found in the database, the
    /// persisted bindings (if any) pruned against them, and the managed ids
    /// set to the ids of the remaining bindings.
    pub fn bootstrap(
        db_name: &str,
        schema_tables: KeyedMap<TableMeta>,
        persisted_bindings: Option<KeyedMap<DataBinding>>,
    ) -> (c: Catalog)
        requires
            schema_tables.wf(),
            forall|t: Seq<char>| #[trigger] schema_tables@.contains_key(t) ==> schema_tables@[t].columns.wf(),
            persisted_bindings matches Some(b) ==> b.wf(),
        ensures
            c.wf(),
            c.metadata.db_name@ == db_name@,
            c.metadata.tables == schema_tables,
            c.metadata.bindings@ == pruned(
                schema_tables@,
                match persisted_bindings {
                    Some(b) => b@,
                    None => Map::empty(),
                },
            ),
            bindings_consistent(c.metadata),
            c.managed() == c.metadata.bindings@.dom(),
    {
        let mut md = DbMetadata::new(db_name);
        md.tables = schema_tables;
        match persisted_bindings {
            Some(b) => {
                md.bindings = b;
            },
            None => {},
        }
        prune_bindings_against_schema(&mut md);
        let managed_ids = keys_of(&md.bindings);
        Catalog { metadata: md, managed_ids }
    }

    /// Adds `id` to the managed ids.
    pub fn add_managed_id(&mut self, id: String)
        requires
            old(self).wf(),
        ensures
            final(self).wf(),
            final(self).metadata == old(self).metadata,
            final(self).managed() == old(self).managed().insert(id@),
    {
        self.managed_ids.insert(id, ());
        proof {
            assert(self.managed() =~= old(self).managed().insert(id@));
        }
    }

    /// Removes `id` from the managed ids and drops its binding, if any.
    pub fn remove_managed_id(&mut self, id: &str)
        requires
            old(self).wf(),
        ensures
            final(self).wf(),
            final(self).metadata.db_name == old(self).metadata.db_name,
            final(self).metadata.tables == old(self).metadata.tables,
            final(self).metadata.bindings@ == old(self).metadata.bindings@.remove(id@),
            final(self).managed() == old(self).managed().remove(id@),
            bindings_consistent(old(self).metadata) ==> bindings_consistent(final(self).metadata),
    {
        self.managed_ids.remove(id);
        self.metadata.bindings.remove(id);
        proof {
            assert(self.managed() =~= old(self).managed().remove(id@));
        }
    }

    /// Checks a binding before it is registered: its table, and its column if
    /// it names one, must be identifiers.
    pub fn check_binding(binding: &DataBinding) -> (r: Result<(), DbError>)
        ensures
            !is_identifier(binding.table@) ==> rejects_identifier(r, binding.table@),
            is_identifier(binding.table@) ==> match binding.column {
                Some(c) => if is_identifier(c@) {
                    r is Ok
                } else {
                    rejects_identifier(r, c@)
                },
                None => r is Ok,
            },
    {
        validate_ident(binding.table.as_str())?;
        match &binding.column {
            Some(c) => validate_ident(c.as_str()),
            None => Ok(()),
        }
    }

    /// Registers `binding` under its data id, replacing an earlier binding of
    /// that id, prunes the bindings against the schema and makes the managed
    /// ids those of the bindings.
    pub fn register_binding(&mut self, binding: DataBinding)
        requires
            old(self).wf(),
        ensures
            final(self).wf(),
            final(self).metadata.db_name == old(self).metadata.db_name,
            final(self).metadata.tables == old(self).metadata.tables,
            final(self).metadata.bindings@ == pruned(
                old(self).metadata.tables@,
                old(self).metadata.bindings@.insert(binding.data_id@, binding),
            ),
            bindings_consistent(final(self).metadata),
            final(self).managed() == final(self).metadata.bindings@.dom(),
    {
        let id = binding.data_id.clone();
        self.metadata.bindings.insert(id, binding);
        prune_bindings_against_schema(&mut self.metadata);
        self.managed_ids = keys_of(&self.metadata.bindings);
    }

    /// Drops the binding of `data_id`, if any, and stops managing the id.
    pub fn unregister_binding(&mut self, data_id: &str)
        requires
            old(self).wf(),
        ensures
            final(self).wf(),
            final(self).metadata.db_name == old(self).metadata.db_name,
            final(self).metadata.tables == old(self).metadata.tables,
            final(self).metadata.bindings@ == old(self).metadata.bindings@.remove(data_id@),
            final(self).managed() == old(self).managed().remove(data_id@),
            bindings_consistent(old(self).metadata) ==> bindings_consistent(final(self).metadata),
    {
        self.metadata.bindings.remove(data_id);
        self.managed_ids.remove(data_id);
        proof {
            assert(self.managed() =~= old(self).managed().remove(data_id@));
        }
    }

    /// Records that `table` was created with `columns`, replacing an earlier
    /// record of that table, and prunes the bindings.
    pub fn create_table(&mut self, table: String, columns: Vec<ColumnDef>)
        requires
            old(self).wf(),
        ensures
            final(self).wf(),
            final(self).metadata.db_name == old(self).metadata.db_name,
            final(self).metadata.tables@.contains_key(table@),
            final(self).metadata.tables@[table@].name@ == table@,
            final(self).metadata.tables@[table@].columns@ == column_defs_map(columns@),
            final(self).metadata.tables@.remove(table@) == old(self).metadata.tables@.remove(table@),
            final(self).metadata.bindings@ == pruned(final(self).metadata.tables@, old(self).metadata.bindings@),
            bindings_consistent(final(self).metadata),
            final(self).managed_ids == old(self).managed_ids,
    {
        let cols = columns_map(columns);
        let key = table.clone();
        let ghost old_tables = self.metadata.tables@;
        self.metadata.tables.insert(key, TableMeta { name: table, columns: cols });
        proof {
            assert forall|t: Seq<char>| #[trigger] self.metadata.tables@.contains_key(t) implies self.metadata.tables@[t].columns.wf() by {
                if t != table@ {
                    assert(old_tables.contains_key(t));
                }
            }
            assert(self.metadata.tables@.remove(table@) =~= old(self).metadata.tables@.remove(table@));
        }
        prune_bindings_against_schema(&mut self.metadata);
    }

    /// Records that `table` was dropped: forgets it and the bindings into it,
    /// and makes the managed ids those of the remaining bindings.
    pub fn drop_table(&mut self, table: &str)
        requires
            old(self).wf(),
        ensures
            final(self).wf(),
            final(self).metadata.db_name == old(self).metadata.db_name,
            final(self).metadata.tables@ == old(self).metadata.tables@.remove(table@),
            final(self).metadata.bindings@ == Map::new(
                |k: Seq<char>| old(self).metadata.bindings@.contains_key(k) && old(self).metadata.bindings@[k].table@ != table@,
                |k: Seq<char>| old(self).metadata.bindings@[k],
            ),
            bindings_consistent(old(self).metadata) ==> bindings_consistent(final(self).metadata),
            final(self).managed() == final(self).metadata.bindings@.dom(),
    {
        let ghost old_tables = self.metadata.tables@;
        self.metadata.tables.remove(table);
        proof {
            assert forall|t: Seq<char>| #[trigger] self.metadata.tables@.contains_key(t) implies self.metadata.tables@[t].columns.wf() by {
                assert(old_tables.contains_key(t));
            }
        }
        self.metadata.retain_bindings(Keep::OtherTable(string_of(table)));
        self.managed_ids = keys_of(&self.metadata.bindings);
        proof {
            assert(self.metadata.bindings@ =~= Map::new(
                |k: Seq<char>| old(self).metadata.bindings@.contains_key(k) && old(self).metadata.bindings@[k].table@ != table@,
                |k: Seq<char>| old(self).metadata.bindings@[k],
            ));
        }
    }

    /// Records that `column` was added to `table` (creating the table's record
    /// if there is none) and prunes the bindings.
    pub fn add_column(&mut self, table: String, column: ColumnDef)
        requires
            old(self).wf(),
        ensures
            final(self).wf(),
            final(self).metadata.db_name == old(self).metadata.db_name,
            final(self).metadata.tables@.contains_key(table@),
            final(self).metadata.tables@[table@].columns@ == (if old(self).metadata.tables@.contains_key(table@) {
                old(self).metadata.tables@[table@].columns@
            } else {
                Map::empty()
            }).insert(column.name@, meta_of(column)),
            old(self).metadata.tables@.contains_key(table@) ==> final(self).metadata.tables@[table@].name
                == old(self).metadata.tables@[table@].name,
            !old(self).metadata.tables@.contains_key(table@) ==> final(self).metadata.tables@[table@].name@ == table@,
            final(self).metadata.tables@.remove(table@) == old(self).metadata.tables@.remove(table@),
            final(self).metadata.bindings@ == pruned(final(self).metadata.tables@, old(self).metadata.bindings@),
            bindings_consistent(final(self).metadata),
            final(self).managed_ids == old(self).managed_ids,
    {
        let ghost old_tables = self.metadata.tables@;
        let entry = match self.metadata.tables.remove(table.as_str()) {
            Some(t) => t,
            None => TableMeta { name: table.clone(), columns: KeyedMap::new() },
        };
        let mut entry = entry;
        let name = column.name.clone();
        entry.columns.insert(name, ColumnMeta::from_def(column));
        self.metadata.tables.insert(table, entry);
        proof {
            assert forall|t: Seq<char>| #[trigger] self.metadata.tables@.contains_key(t) implies self.metadata.tables@[t].columns.wf() by {
                if t != table@ {
                    assert(old_tables.contains_key(t));
                }
            }
            assert(self.metadata.tables@.remove(table@) =~= old(self).metadata.tables@.remove(table@));
        }
        prune_bindings_against_schema(&mut self.metadata);
    }

    /// Records that `column` was dropped from `table`: forgets the column and
    /// the bindings into it, and makes the managed ids those of the remaining
    /// bindings.
    pub fn drop_column(&mut self, table: &str, column: &str)
        requires
            old(self).wf(),
        ensures
            final(self).wf(),
            final(self).metadata.db_name == old(self).metadata.db_name,
            final(self).metadata.tables@.dom() == old(self).metadata.tables@.dom(),
            old(self).metadata.tables@.contains_key(table@) ==> final(self).metadata.tables@[table@].columns@
                == old(self).metadata.tables@[table@].columns@.remove(column@),
            old(self).metadata.tables@.contains_key(table@) ==> final(self).metadata.tables@[table@].name
                == old(self).metadata.tables@[table@].name,
            final(self).metadata.tables@.remove(table@) == old(self).metadata.tables@.remove(table@),
            final(self).metadata.bindings@ == Map::new(
                |k: Seq<char>| old(self).metadata.bindings@.contains_key(k) && !(old(self).metadata.bindings@[k].table@ == table@
                    && (old(self).metadata.bindings@[k].column matches Some(c) && c@ == column@)),
                |k: Seq<char>| old(self).metadata.bindings@[k],
            ),
            bindings_consistent(old(self).metadata) ==> bindings_consistent(final(self).metadata),
            final(self).managed() == final(self).metadata.bindings@.dom(),
    {
        let ghost old_tables = self.metadata.tables@;
        match self.metadata.tables.remove(table) {
            Some(t) => {
                let mut t = t;
                t.columns.remove(column);
                self.metadata.tables.insert(string_of(table), t);
                proof {
                    assert forall|x: Seq<char>| #[trigger] self.metadata.tables@.contains_key(x) implies self.metadata.tables@[x].columns.wf() by {
                        if x != table@ {
                            assert(old_tables.contains_key(x));
                        }
                    }
                    assert(self.metadata.tables@.dom() =~= old_tables.dom());
                    assert(self.metadata.tables@.remove(table@) =~= old_tables.remove(table@));
                }
            },
            None => {
                proof {
                    assert(self.metadata.tables@ =~= old_tables);
                }
            },
        }
        let ghost tables_now = self.metadata.tables@;
        self.metadata.retain_bindings(Keep::OtherColumn(string_of(table), string_of(column)));
        self.managed_ids = keys_of(&self.metadata.bindings);
        proof {
            assert(self.metadata.bindings@ =~= Map::new(
                |k: Seq<char>| old(self).metadata.bindings@.contains_key(k) && !(old(self).metadata.bindings@[k].table@ == table@
                    && (old(self).metadata.bindings@[k].column matches Some(c) && c@ == column@)),
                |k: Seq<char>| old(self).metadata.bindings@[k],
            ));
            if bindings_consistent(old(self).metadata) {
                assert forall|k: Seq<char>| #[trigger] self.metadata.bindings@.contains_key(k) implies binding_valid(
                    self.metadata.tables@,
                    self.metadata.bindings@[k],
                ) by {
                    let b = self.metadata.bindings@[k];
                    assert(binding_valid(old_tables, b));
                    if b.table@ != table@ {
                        assert(old_tables.remove(table@).contains_key(b.table@));
                    }
                }
            }
        }
    }

    /// Replaces the recorded tables with `tables` as found in the database,
    /// prunes the bindings and makes the managed ids those of the bindings.
    pub fn refresh_schema(&mut self, tables: KeyedMap<TableMeta>)
        requires
            old(self).wf(),
            tables.wf(),
            forall|t: Seq<char>| #[trigger] tables@.contains_key(t) ==> tables@[t].columns.wf(),
        ensures
            final(self).wf(),
            final(self).metadata.db_name == old(self).metadata.db_name,
            final(self).metadata.tables == tables,
            final(self).metadata.bindings@ == pruned(tables@, old(self).metadata.bindings@),
            bindings_consistent(final(self).metadata),
            final(self).managed() == final(self).metadata.bindings@.dom(),
    {
        self.metadata.tables = tables;
        prune_bindings_against_schema(&mut self.metadata);
        self.managed_ids = keys_of(&self.metadata.bindings);
    }

    /// The managed data ids.
    pub fn list_managed_ids(&self) -> (ids: Vec<String>)
        requires
            self.wf(),
        ensures
            ids@.len() == self.managed().len(),
            ids@.map_values(|s: String| s@).to_set() == self.managed(),
            ids@.map_values(|s: String| s@).no_duplicates(),
    {
        let n = self.managed_ids.key_count();
        let mut ids: Vec<String> = Vec::new();
        let mut i: usize = 0;
        proof {
            self.managed_ids.lemma_key_list();
        }
        while i < n
            invariant
                self.wf(),
                n == self.managed_ids.key_list().len(),
                i <= n,
                ids@.map_values(|s: String| s@) == self.managed_ids.key_list().take(i as int),
            decreases n - i,
        {
            let k = self.managed_ids.key_at(i).clone();
            let ghost before = ids@;
            ids.push(k);
            proof {
                assert(ids@.map_values(|s: String| s@) =~= before.map_values(|s: String| s@).push(k@));
                assert(self.managed_ids.key_list().take(i + 1) =~= self.managed_ids.key_list().take(
                    i as int,
                ).push(self.managed_ids.key_list()[i as int]));
            }
            i = i + 1;
        }
        proof {
            assert(self.managed_ids.key_list().take(n as int) =~= self.managed_ids.key_list());
        }
        ids
    }
}

/// How handing a command to the database worker without waiting went.
#[derive(Clone, Copy, Debug, PartialEq, Eq, Structural)]
pub enum SubmitOutcome {
    /// The command is queued.
    Sent,
    /// The queue had no room.
    Full,
    /// The worker has stopped.
    Closed,
}

/// The result of a command handed over without waiting: accepted when it was
/// queued, `QueueFull` when the queue had no room (the caller may drop the
/// sample) and `WorkerClosed` when the worker has stopped.
pub fn submit_result(o: SubmitOutcome) -> (r: Result<(), DbError>)
    ensures
        o == SubmitOutcome::Sent ==> r is Ok,
        o == SubmitOutcome::Full ==> r matches Err(DbError::QueueFull),
        o == SubmitOutcome::Closed ==> r matches Err(DbError::WorkerClosed),
{
    match o {
        SubmitOutcome::Sent => Ok(()),
        SubmitOutcome::Full => Err(DbError::QueueFull),
        SubmitOutcome::Closed => Err(DbError::WorkerClosed),
    }
}

} // verus!
