//! The decisions of the database worker: what each request does to the
//! catalog, which statement it runs first, and when the catalog is persisted.
//! The worker performs the steps (runs the statement, persists, answers) and
//! hands back what the database said.

use vstd::prelude::*;
use crate::postgres::catalog::{
    Catalog, DbError, add_column_sql, add_column_statement, bindings_consistent, column_defs_map,
    create_table_sql, create_table_statement, drop_column_sql, drop_column_statement, drop_table_sql,
    drop_table_statement, first_invalid_column, is_identifier, is_metadata_table, is_user_table, meta_of, pruned,
    rejects_identifier, table_column_check, table_column_ok,
};
use crate::postgres::types::{ColumnDef, DataBinding};

verus! {

/// A change of the schema: a statement runs first, and the catalog follows it
/// once the database has accepted it.
pub enum SchemaChange {
    CreateTable { table: String, columns: Vec<ColumnDef> },
    DropTable { table: String },
    AddColumn { table: String, column: ColumnDef },
    DropColumn { table: String, column: String },
}

/// A request to the worker that changes the catalog.
pub enum CatalogRequest {
    AddManagedId { id: String },
    RemoveManagedId { id: String },
    RegisterBinding { binding: DataBinding },
    UnregisterBinding { data_id: String },
    Schema { change: SchemaChange },
}

/// What the worker does next for a request.
pub enum WorkerStep {
    /// Run this statement and hand its outcome to `Catalog::complete`.
    Execute(String),
    /// Persist the catalog and answer with the outcome of that.
    Persist,
    /// Answer the request with this.
    Reply(Result<(), DbError>),
}

/// Whether catalog `new` is catalog `old` after `id` is added to the managed ids; nothing else changes.
pub open spec fn adds_managed_id(old: Catalog, new: Catalog, id: Seq<char>) -> bool {
    &&& new.metadata == old.metadata
    &&& new.managed() == old.managed().insert(id)
}

/// Whether catalog `new` is catalog `old` after `id` is no longer managed and its binding, if any, is dropped.
pub open spec fn removes_managed_id(old: Catalog, new: Catalog, id: Seq<char>) -> bool {
    &&& new.metadata.db_name == old.metadata.db_name
    &&& new.metadata.tables == old.metadata.tables
    &&& new.metadata.bindings@ == old.metadata.bindings@.remove(id)
    &&& new.managed() == old.managed().remove(id)
    &&& bindings_consistent(old.metadata) ==> bindings_consistent(new.metadata)
}

/// Whether catalog `new` is catalog `old` after `binding` is registered under its data id, the bindings are pruned against
/// the schema and the managed ids become the bound ids.
pub open spec fn registers_binding(old: Catalog, new: Catalog, binding: DataBinding) -> bool {
    &&& new.metadata.db_name == old.metadata.db_name
    &&& new.metadata.tables == old.metadata.tables
    &&& new.metadata.bindings@ == pruned(
            old.metadata.tables@,
            old.metadata.bindings@.insert(binding.data_id@, binding),
        )
    &&& bindings_consistent(new.metadata)
    &&& new.managed() == new.metadata.bindings@.dom()
}

/// Whether catalog `new` is catalog `old` after the binding of `data_id`, if any, is dropped and the id no longer managed.
pub open spec fn unregisters_binding(old: Catalog, new: Catalog, data_id: Seq<char>) -> bool {
    &&& new.metadata.db_name == old.metadata.db_name
    &&& new.metadata.tables == old.metadata.tables
    &&& new.metadata.bindings@ == old.metadata.bindings@.remove(data_id)
    &&& new.managed() == old.managed().remove(data_id)
    &&& bindings_consistent(old.metadata) ==> bindings_consistent(new.metadata)
}

/// Whether catalog `new` is catalog `old` after `table` is recorded with `columns`, replacing an earlier record, and the
/// bindings are pruned.
pub open spec fn creates_table(old: Catalog, new: Catalog, table: Seq<char>, columns: Seq<ColumnDef>) -> bool {
    &&& new.metadata.db_name == old.metadata.db_name
    &&& new.metadata.tables@.contains_key(table)
    &&& new.metadata.tables@[table].name@ == table
    &&& new.metadata.tables@[table].columns@ == column_defs_map(columns)
    &&& new.metadata.tables@.remove(table) == old.metadata.tables@.remove(table)
    &&& new.metadata.bindings@ == pruned(new.metadata.tables@, old.metadata.bindings@)
    &&& bindings_consistent(new.metadata)
    &&& new.managed_ids == old.managed_ids
}

/// Whether catalog `new` is catalog `old` after `table` and the bindings into it are forgotten, and the managed ids
/// become the remaining bound ids.
pub open spec fn drops_table(old: Catalog, new: Catalog, table: Seq<char>) -> bool {
    &&& new.metadata.db_name == old.metadata.db_name
    &&& new.metadata.tables@ == old.metadata.tables@.remove(table)
    &&& new.metadata.bindings@ == Map::new(
            |k: Seq<char>| old.metadata.bindings@.contains_key(k) && old.metadata.bindings@[k].table@ != table,
            |k: Seq<char>| old.metadata.bindings@[k],
        )
    &&& bindings_consistent(old.metadata) ==> bindings_consistent(new.metadata)
    &&& new.managed() == new.metadata.bindings@.dom()
}

/// Whether catalog `new` is catalog `old` after `column` is recorded in `table` (created if missing) and the bindings are
/// pruned.
pub open spec fn adds_column(old: Catalog, new: Catalog, table: Seq<char>, column: ColumnDef) -> bool {
    &&& new.metadata.db_name == old.metadata.db_name
    &&& new.metadata.tables@.contains_key(table)
    &&& new.metadata.tables@[table].columns@ == (if old.metadata.tables@.contains_key(table) {
            old.metadata.tables@[table].columns@
        } else {
            Map::empty()
        }).insert(column.name@, meta_of(column))
    &&& old.metadata.tables@.contains_key(table) ==> new.metadata.tables@[table].name
            == old.metadata.tables@[table].name
    &&& !old.metadata.tables@.contains_key(table) ==> new.metadata.tables@[table].name@ == table
    &&& new.metadata.tables@.remove(table) == old.metadata.tables@.remove(table)
    &&& new.metadata.bindings@ == pruned(new.metadata.tables@, old.metadata.bindings@)
    &&& bindings_consistent(new.metadata)
    &&& new.managed_ids == old.managed_ids
}

/// Whether catalog `new` is catalog `old` after `column` is forgotten from `table`, with the bindings into it, and the
/// managed ids become the remaining bound ids.
pub open spec fn drops_column(old: Catalog, new: Catalog, table: Seq<char>, column: Seq<char>) -> bool {
    &&& new.metadata.db_name == old.metadata.db_name
    &&& new.metadata.tables@.dom() == old.metadata.tables@.dom()
    &&& old.metadata.tables@.contains_key(table) ==> new.metadata.tables@[table].columns@
            == old.metadata.tables@[table].columns@.remove(column)
    &&& old.metadata.tables@.contains_key(table) ==> new.metadata.tables@[table].name
            == old.metadata.tables@[table].name
    &&& new.metadata.tables@.remove(table) == old.metadata.tables@.remove(table)
    &&& new.metadata.bindings@ == Map::new(
            |k: Seq<char>| old.metadata.bindings@.contains_key(k) && !(old.metadata.bindings@[k].table@ == table
                && (old.metadata.bindings@[k].column matches Some(c) && c@ == column)),
            |k: Seq<char>| old.metadata.bindings@[k],
        )
    &&& bindings_consistent(old.metadata) ==> bindings_consistent(new.metadata)
    &&& new.managed() == new.metadata.bindings@.dom()
}

/// Whether the statement of `change` may run: its table is a user table and
/// every name in it an identifier.
pub open spec fn statement_allowed(change: SchemaChange) -> bool {
    match change {
        SchemaChange::CreateTable { table, columns } => is_user_table(table@) && first_invalid_column(columns@) is None,
        SchemaChange::DropTable { table } => is_user_table(table@),
        SchemaChange::AddColumn { table, column } => table_column_ok(table@, column.name@),
        SchemaChange::DropColumn { table, column } => table_column_ok(table@, column@),
    }
}

/// The statement of a change that may run.
pub open spec fn statement_text(change: SchemaChange) -> Seq<char> {
    match change {
        SchemaChange::CreateTable { table, columns } => create_table_sql(table@, columns@),
        SchemaChange::DropTable { table } => drop_table_sql(table@),
        SchemaChange::AddColumn { table, column } => add_column_sql(table@, column),
        SchemaChange::DropColumn { table, column } => drop_column_sql(table@, column@),
    }
}

/// Whether `r` is the error that refuses a change that may not run: the one
/// that rejects its first bad name (the table's before any column's), or the
/// catalog's own table.
pub open spec fn refusal_of<T>(change: SchemaChange, r: Result<T, DbError>) -> bool {
    match change {
        SchemaChange::CreateTable { table, columns } => if !is_user_table(table@) {
            rejects_identifier(r, table@)
        } else {
            first_invalid_column(columns@) matches Some(i) && rejects_identifier(r, columns@[i].name@)
        },
        SchemaChange::DropTable { table } => rejects_identifier(r, table@),
        SchemaChange::AddColumn { table, column } => table_column_check(r, table@, column.name@) && r is Err,
        SchemaChange::DropColumn { table, column } => table_column_check(r, table@, column@) && r is Err,
    }
}

/// Whether catalog `new` is catalog `old` after `change` was applied.
pub open spec fn applies_change(old: Catalog, new: Catalog, change: SchemaChange) -> bool {
    match change {
        SchemaChange::CreateTable { table, columns } => creates_table(old, new, table@, columns@),
        SchemaChange::DropTable { table } => drops_table(old, new, table@),
        SchemaChange::AddColumn { table, column } => adds_column(old, new, table@, column),
        SchemaChange::DropColumn { table, column } => drops_column(old, new, table@, column@),
    }
}

/// Whether the names of `b` are identifiers, which registering it requires.
pub open spec fn binding_names_ok(b: DataBinding) -> bool {
    is_identifier(b.table@) && (b.column matches Some(c) ==> is_identifier(c@))
}

/// Whether `r` refuses the binding `b`: the error that rejects its table's
/// name, or else its column's.
pub open spec fn refuses_binding(r: Result<(), DbError>, b: DataBinding) -> bool {
    if !is_identifier(b.table@) {
        rejects_identifier(r, b.table@)
    } else {
        b.column matches Some(c) && rejects_identifier(r, c@)
    }
}

/// Whether `step` is the first step of a schema change: run its statement if
/// it may run, else answer with the error that refuses it.
pub open spec fn first_schema_step(change: SchemaChange, step: WorkerStep) -> bool {
    match step {
        WorkerStep::Execute(s) => statement_allowed(change) && s@ == statement_text(change),
        WorkerStep::Reply(r) => !statement_allowed(change) && refusal_of(change, r),
        WorkerStep::Persist => false,
    }
}

/// Creating a table whose name is the catalog's own table or not an
/// identifier, or with a column whose name is not an identifier, may not run:
/// it is refused with an `InvalidIdentifier` error (naming the table when the
/// table is at fault), so `Catalog::begin` answers with that error and
/// changes nothing, and `Catalog::complete` changes nothing either.
pub proof fn lemma_bad_names_refuse_create_table(table: String, columns: Vec<ColumnDef>, r: Result<(), DbError>)
    requires
        is_metadata_table(table@) || !is_identifier(table@) || exists|i: int| 0 <= i < columns@.len()
            && !is_identifier(#[trigger] columns@[i].name@),
        refusal_of(SchemaChange::CreateTable { table, columns }, r),
    ensures
        !statement_allowed(SchemaChange::CreateTable { table, columns }),
        r matches Err(DbError::InvalidIdentifier(_)),
        !is_user_table(table@) ==> (r matches Err(DbError::InvalidIdentifier(n)) && n@ == table@),
{
}

/// The statement of `change`, or the error that refuses it.
pub fn schema_statement(change: &SchemaChange) -> (r: Result<String, DbError>)
    ensures
        statement_allowed(*change) ==> (r matches Ok(s) && s@ == statement_text(*change)),
        !statement_allowed(*change) ==> refusal_of(*change, r),
{
    match change {
        SchemaChange::CreateTable { table, columns } => create_table_statement(table.as_str(), columns),
        SchemaChange::DropTable { table } => drop_table_statement(table.as_str()),
        SchemaChange::AddColumn { table, column } => add_column_statement(table.as_str(), column),
        SchemaChange::DropColumn { table, column } => drop_column_statement(table.as_str(), column.as_str()),
    }
}

impl Catalog {
    /// The first step of a request. A schema change leaves the catalog as it
    /// is and runs its statement, or is answered with the error that refuses
    /// it. A binding whose names are identifiers is registered and the catalog
    /// persisted; any other is refused and nothing changes. Adding a managed id
    /// is answered at once; removing one, or a binding, is persisted.
    pub fn begin(&mut self, req: &CatalogRequest) -> (step: WorkerStep)
        requires
            old(self).wf(),
        ensures
            final(self).wf(),
            match *req {
                CatalogRequest::AddManagedId { id } => adds_managed_id(*old(self), *final(self), id@)
                    && step == WorkerStep::Reply(Ok(())),
                CatalogRequest::RemoveManagedId { id } => removes_managed_id(*old(self), *final(self), id@)
                    && step == WorkerStep::Persist,
                CatalogRequest::RegisterBinding { binding } => if binding_names_ok(binding) {
                    registers_binding(*old(self), *final(self), binding) && step == WorkerStep::Persist
                } else {
                    *final(self) == *old(self) && (step matches WorkerStep::Reply(r) && refuses_binding(r, binding))
                },
                CatalogRequest::UnregisterBinding { data_id } => unregisters_binding(*old(self), *final(self), data_id@)
                    && step == WorkerStep::Persist,
                CatalogRequest::Schema { change } => *final(self) == *old(self) && first_schema_step(change, step),
            },
    {
        match req {
            CatalogRequest::AddManagedId { id } => {
                self.add_managed_id(id.clone());
                WorkerStep::Reply(Ok(()))
            },
            CatalogRequest::RemoveManagedId { id } => {
                self.remove_managed_id(id.as_str());
                WorkerStep::Persist
            },
            CatalogRequest::RegisterBinding { binding } => {
                match Catalog::check_binding(binding) {
                    Err(e) => WorkerStep::Reply(Err(e)),
                    Ok(()) => {
                        let copy = DataBinding {
                            data_id: binding.data_id.clone(),
                            table: binding.table.clone(),
                            column: match &binding.column {
                                Some(c) => Some(c.clone()),
                                None => None,
                            },
                        };
                        self.register_binding(copy);
                        WorkerStep::Persist
                    },
                }
            },
            CatalogRequest::UnregisterBinding { data_id } => {
                self.unregister_binding(data_id.as_str());
                WorkerStep::Persist
            },
            CatalogRequest::Schema { change } => match schema_statement(change) {
                Ok(sql) => WorkerStep::Execute(sql),
                Err(e) => WorkerStep::Reply(Err(e)),
            },
        }
    }

    /// The step after the statement of `change` ran with outcome `executed`.
    /// The catalog follows the change only if the statement may run and the
    /// database accepted it; the catalog is then persisted. Otherwise nothing
    /// changes and the request is answered with the error.
    pub fn complete(&mut self, change: SchemaChange, executed: Result<u64, DbError>) -> (step: WorkerStep)
        requires
            old(self).wf(),
        ensures
            final(self).wf(),
            !statement_allowed(change) ==> *final(self) == *old(self) && (step matches WorkerStep::Reply(r)
                && refusal_of(change, r)),
            statement_allowed(change) ==> match executed {
                Err(e) => *final(self) == *old(self) && step == WorkerStep::Reply(Err(e)),
                Ok(_) => applies_change(*old(self), *final(self), change) && step == WorkerStep::Persist,
            },
    {
        match schema_statement(&change) {
            Err(e) => {
                return WorkerStep::Reply(Err(e));
            },
            Ok(_) => {},
        }
        match executed {
            Err(e) => WorkerStep::Reply(Err(e)),
            Ok(_) => {
                match change {
                    SchemaChange::CreateTable { table, columns } => self.create_table(table, columns),
                    SchemaChange::DropTable { table } => self.drop_table(table.as_str()),
                    SchemaChange::AddColumn { table, column } => self.add_column(table, column),
                    SchemaChange::DropColumn { table, column } => self.drop_column(table.as_str(), column.as_str()),
                }
                WorkerStep::Persist
            },
        }
    }
}

} // verus!
