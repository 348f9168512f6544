//! The error kinds of the engine.
use vstd::prelude::*;
use crate::ident::TableId;
use crate::info::{TableKind, TensorType};

verus! {

/// Errors about the shape of tensors and frames.
#[derive(Debug)]
pub enum ShapeError {
    Ndim { expected: usize, actual: usize },
    Incompatible(Vec<usize>),
    Broadcast(Vec<usize>, Vec<usize>),
    ArraySize(usize, Vec<usize>),
}

impl ShapeError {
    pub fn ndim(expected: usize, actual: usize) -> (r: ShapeError)
        ensures
            r == (ShapeError::Ndim { expected, actual }),
    {
        ShapeError::Ndim { expected, actual }
    }

    pub fn incompatible(shape: &[usize]) -> (r: ShapeError)
        ensures
            r is Incompatible,
            r->Incompatible_0@ == shape@,
    {
        ShapeError::Incompatible(vstd::slice::slice_to_vec(shape))
    }

    pub fn broadcast(lhs: &[usize], rhs: &[usize]) -> (r: ShapeError)
        ensures
            r is Broadcast,
            r->Broadcast_0@ == lhs@,
            r->Broadcast_1@ == rhs@,
    {
        ShapeError::Broadcast(vstd::slice::slice_to_vec(lhs), vstd::slice::slice_to_vec(rhs))
    }
}

/// Errors of the catalog, the log and the engine's tasks.
#[derive(Debug)]
#[allow(inconsistent_fields)]
pub enum EngineError {
    InvalidDatastore(String),
    DatastoreExists(String),
    TableClosed,
    TableQueueFull,
    Worker { id: String, error: String },
    InvalidSql { expected: String, actual: String },
    CatalogNotFound(String),
    SchemaNotFound(String),
    TableNotFound(TableId),
    ShardNotFound(String),
    SchemaExists(String),
    CatalogExists(String),
    ShardExists(String),
    TableExists(TableId),
    /// A table exists under the name but is of the other kind.
    TableKind { expected: TableKind, actual: TableKind },
    /// `if_not_exists` and `or_replace` were both asked for.
    ExclusiveFlags,
    /// The catalog has been closed and takes no more changes.
    Closed,
    /// A query failed while it ran.
    Execution(String),
    InvalidIndex(String),
}

impl EngineError {
    pub fn invalid_sql(expected: &str, actual: &str) -> (r: EngineError)
        ensures
            r is InvalidSql,
            r->InvalidSql_expected@ == expected@,
            r->InvalidSql_actual@ == actual@,
    {
        EngineError::InvalidSql { expected: expected.to_owned(), actual: actual.to_owned() }
    }

    pub fn table_kind(expected: TableKind, actual: TableKind) -> (r: EngineError)
        ensures
            r == (EngineError::TableKind { expected, actual }),
    {
        EngineError::TableKind { expected, actual }
    }

    /// The error that a background task reports when it stopped abnormally.
    pub fn worker_panic(id: &str, error: &str) -> (r: EngineError)
        ensures
            r is Worker,
            r->Worker_id@ == id@,
            r->Worker_error@ == error@,
    {
        EngineError::Worker { id: id.to_owned(), error: error.to_owned() }
    }
}

/// Every error of the library.
#[derive(Debug)]
pub enum Error {
    Engine(EngineError),
    Shape(ShapeError),
    DataType(TensorType),
    AxisOutOfBounds(isize, usize),
    EmptyList,
    ColumnLookup(String),
    Cast { to: TensorType, from: TensorType },
    ColumnCount(usize, usize),
    TopicNotFound(String),
    Unimplemented(String),
    InvalidArgument(String),
    /// The backing store failed.
    Io(String),
}

impl Error {
    pub fn cast(to: TensorType, from: TensorType) -> (r: Error)
        ensures
            r == (Error::Cast { to, from }),
    {
        Error::Cast { to, from }
    }
}

} // verus!
