//! The registry of databases by name.

use vstd::prelude::*;
use crate::keyed_map::KeyedMap;
use crate::text::{chars_of, concat_chars, string_from_chars};
use crate::postgres::catalog::DbError;

verus! {

/// The message for a database name that is taken.
pub open spec fn already_registered_message(name: Seq<char>) -> Seq<char> {
    "DB '"@ + name + "' already registered"@
}

/// Databases by unique name, in the order they were added.
#[derive(Debug)]
pub struct DatabaseManager<D> {
    dbs: KeyedMap<D>,
}

impl<D> View for DatabaseManager<D> {
    type V = Map<Seq<char>, D>;

    closed spec fn view(&self) -> Map<Seq<char>, D> {
        self.dbs@
    }
}

impl<D> DatabaseManager<D> {
    /// The internal invariant.
    pub closed spec fn wf(&self) -> bool {
        self.dbs.wf()
    }

    /// A manager with no database.
    pub fn new() -> (m: DatabaseManager<D>)
        ensures
            m.wf(),
            m@ == Map::<Seq<char>, D>::empty(),
    {
        DatabaseManager { dbs: KeyedMap::new() }
    }

    /// Registers `db` under `name`, unless that name is taken.
    pub fn add_db(&mut self, name: String, db: D) -> (r: Result<(), DbError>)
        requires
            old(self).wf(),
        ensures
            final(self).wf(),
            r is Ok == !old(self)@.contains_key(name@),
            r is Ok ==> final(self)@ == old(self)@.insert(name@, db),
            r is Err ==> final(self)@ == old(self)@,
            r matches Err(e) ==> e matches DbError::AlreadyExists(m) && m@ == already_registered_message(name@),
    {
        if self.dbs.contains_key(name.as_str()) {
            let a = concat_chars(&chars_of("DB '"), &chars_of(name.as_str()));
            let b = concat_chars(&a, &chars_of("' already registered"));
            return Err(DbError::AlreadyExists(string_from_chars(&b)));
        }
        self.dbs.insert(name, db);
        Ok(())
    }

    /// Unregisters the database `name` and returns it, if it was registered.
    pub fn remove_db(&mut self, name: &str) -> (r: Option<D>)
        requires
            old(self).wf(),
        ensures
            final(self).wf(),
            final(self)@ == old(self)@.remove(name@),
            r matches Some(d) ==> old(self)@.contains_key(name@) && d == old(self)@[name@],
            r is None ==> !old(self)@.contains_key(name@),
    {
        self.dbs.remove(name)
    }

    /// The database `name`, if it is registered.
    pub fn get_db(&self, name: &str) -> (r: Option<&D>)
        requires
            self.wf(),
        ensures
            r matches Some(d) ==> self@.contains_key(name@) && *d == self@[name@],
            r is None ==> !self@.contains_key(name@),
    {
        self.dbs.get(name)
    }

    /// The names of all registered databases, each once.
    pub fn list_db_names(&self) -> (names: Vec<String>)
        requires
            self.wf(),
        ensures
            names@.map_values(|s: String| s@).to_set() == self@.dom(),
            names@.map_values(|s: String| s@).no_duplicates(),
    {
        proof {
            self.dbs.lemma_key_list();
        }
        self.dbs.keys()
    }
}

} // verus!
