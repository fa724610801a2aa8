//! The synchronizer that runs mappings between the gateway and the
//! databases, and the errors of a mapping.

use vstd::prelude::*;
use crate::text::{chars_of, concat_chars, string_from_chars};

verus! {

/// A mapping failed.
#[derive(Clone, Debug)]
pub enum SyncError {
    Mapping(String),
}

/// A mapping could not read from the gateway or write to the database.
#[derive(Clone, Debug)]
pub enum MappingIoError {
    Gateway(String),
    DbWrite(String),
}

/// The text of a synchronization error.
pub open spec fn sync_error_text(e: SyncError) -> Seq<char> {
    match e {
        SyncError::Mapping(m) => "mapping failed: "@ + m@,
    }
}

/// The text of a mapping I/O error.
pub open spec fn mapping_io_error_text(e: MappingIoError) -> Seq<char> {
    match e {
        MappingIoError::Gateway(m) => "gateway read failed: "@ + m@,
        MappingIoError::DbWrite(m) => "db write failed: "@ + m@,
    }
}

fn join(a: &str, b: &str) -> (s: String)
    ensures
        s@ == a@ + b@,
{
    string_from_chars(&concat_chars(&chars_of(a), &chars_of(b)))
}

impl SyncError {
    /// The error's text.
    pub fn message(&self) -> (s: String)
        ensures
            s@ == sync_error_text(*self),
    {
        match self {
            SyncError::Mapping(m) => join("mapping failed: ", m.as_str()),
        }
    }
}

impl MappingIoError {
    /// The error's text.
    pub fn message(&self) -> (s: String)
        ensures
            s@ == mapping_io_error_text(*self),
    {
        match self {
            MappingIoError::Gateway(m) => join("gateway read failed: ", m.as_str()),
            MappingIoError::DbWrite(m) => join("db write failed: ", m.as_str()),
        }
    }
}

/// The error of mapping `name` when its `side` ("gateway" or "db") failed
/// with `e`: "<name> (<side>): <text of e>".
pub fn mapping_failure(name: &str, side: &str, e: &MappingIoError) -> (r: SyncError)
    ensures
        r matches SyncError::Mapping(m) && m@ == name@ + " ("@ + side@ + "): "@ + mapping_io_error_text(*e),
{
    let a = join(name, " (");
    let b = join(a.as_str(), side);
    let c = join(b.as_str(), "): ");
    let text = e.message();
    SyncError::Mapping(join(c.as_str(), text.as_str()))
}

/// Runs a list of mappings, each once per tick.
#[derive(Debug)]
pub struct Synchronizer<M> {
    mappings: Vec<M>,
}

impl<M> Synchronizer<M> {
    /// The mappings, in the order they run.
    pub closed spec fn mapping_list(&self) -> Seq<M> {
        self.mappings@
    }

    /// A synchronizer that runs `mappings` in order.
    pub fn new(mappings: Vec<M>) -> (s: Synchronizer<M>)
        ensures
            s.mapping_list() == mappings@,
    {
        Synchronizer { mappings }
    }

    /// The mappings, in the order they run.
    pub fn mappings(&self) -> (m: &Vec<M>)
        ensures
            m@ == self.mapping_list(),
    {
        &self.mappings
    }
}

} // verus!
