//! The envelopes of operation metadata and errors that result handlers pass
//! on to the engine, and the default handlers.

use vstd::prelude::*;
use crate::time::Duration;
use crate::text::string_of;

verus! {

/// What an operation is, for routing its result.
#[derive(Clone, Debug)]
pub struct OperationMeta {
    /// The caller's correlation id.
    pub op_id: String,
    /// Such as "telemetry".
    pub namespace: Option<String>,
    /// Such as "read_latest".
    pub name: Option<String>,
    pub timeout: Option<Duration>,
    /// Free-form labels, in the order they were added.
    pub tags: Vec<(String, String)>,
}

impl OperationMeta {
    /// An operation with id `op_id` and nothing else known.
    pub fn new(op_id: &str) -> (m: OperationMeta)
        ensures
            m.op_id@ == op_id@,
            m.namespace is None,
            m.name is None,
            m.timeout is None,
            m.tags@.len() == 0,
    {
        OperationMeta { op_id: string_of(op_id), namespace: None, name: None, timeout: None, tags: Vec::new() }
    }

    /// The same operation with the label `k` = `v` added last.
    pub fn tag(self, k: &str, v: &str) -> (m: OperationMeta)
        ensures
            m.op_id == self.op_id,
            m.namespace == self.namespace,
            m.name == self.name,
            m.timeout == self.timeout,
            m.tags@.len() == self.tags@.len() + 1,
            m.tags@.drop_last() == self.tags@,
            m.tags@.last().0@ == k@,
            m.tags@.last().1@ == v@,
    {
        let mut m = self;
        m.tags.push((string_of(k), string_of(v)));
        proof {
            assert(m.tags@.drop_last() =~= self.tags@);
        }
        m
    }
}

/// A column of a tabular result.
#[derive(Clone, Debug)]
pub struct ColumnMeta {
    pub name: String,
    /// The database's type name, if known.
    pub declared_type: Option<String>,
}

impl ColumnMeta {
    /// A column named `name` of unknown type.
    pub fn new(name: &str) -> (c: ColumnMeta)
        ensures
            c.name@ == name@,
            c.declared_type is None,
    {
        ColumnMeta { name: string_of(name), declared_type: None }
    }
}

/// The kinds of operation errors.
#[derive(Clone, Copy, Debug, PartialEq, Eq, Structural)]
pub enum DbErrorKind {
    Transport,
    Timeout,
    Authentication,
    Authorization,
    NotFound,
    Conflict,
    ConstraintViolation,
    Serialization,
    Deserialization,
    Protocol,
    Server,
    Client,
    Unknown,
}

/// An operation error: its code, message, kind and whether a retry may help.
#[derive(Clone, Debug)]
pub struct DbError {
    /// Such as an SQLSTATE or an HTTP status.
    pub code: Option<String>,
    pub message: String,
    pub kind: DbErrorKind,
    pub retryable: bool,
}

impl DbError {
    /// An error of `kind` with `message`, without code, not retryable.
    pub fn new(message: &str, kind: DbErrorKind) -> (e: DbError)
        ensures
            e.message@ == message@,
            e.kind == kind,
            e.code is None,
            !e.retryable,
    {
        DbError { code: None, message: string_of(message), kind, retryable: false }
    }

    /// The same error with code `code`.
    pub fn with_code(self, code: &str) -> (e: DbError)
        ensures
            e.code matches Some(c) && c@ == code@,
            e.message == self.message,
            e.kind == self.kind,
            e.retryable == self.retryable,
    {
        let mut e = self;
        e.code = Some(string_of(code));
        e
    }

    /// The same error, retryable or not as `v` says.
    pub fn retryable(self, v: bool) -> (e: DbError)
        ensures
            e.retryable == v,
            e.code == self.code,
            e.message == self.message,
            e.kind == self.kind,
    {
        let mut e = self;
        e.retryable = v;
        e
    }
}

/// The result handler that forwards every result to the engine as it is.
#[derive(Debug, Default)]
pub struct ForwardResultHandler;

/// The error handler that forwards every error to the engine as it is.
#[derive(Debug, Default)]
pub struct ForwardErrorHandler;

/// The engine sink that drops everything.
#[derive(Debug, Default)]
pub struct NoopEngineSink;

} // verus!
