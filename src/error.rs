use vstd::prelude::*;

verus! {

/// Why a data-access operation or a page render failed.
#[derive(Debug, Clone, Copy, PartialEq, Eq, Structural)]
pub enum DataAccessError {
    /// The pool could not hand out a connection.
    PoolError,
    /// A statement failed to prepare, bind or execute.
    QueryError,
    /// The page could not be rendered from the items.
    RenderError,
}

/// HTTP status that every failure is reported with.
pub const INTERNAL_SERVER_ERROR: u16 = 500;

impl DataAccessError {
    /// The HTTP status of the response that reports this failure: every
    /// kind of failure surfaces as an internal server error.
    pub fn status_code(&self) -> (r: u16)
        ensures
            r == INTERNAL_SERVER_ERROR,
    {
        match self {
            DataAccessError::PoolError => INTERNAL_SERVER_ERROR,
            DataAccessError::QueryError => INTERNAL_SERVER_ERROR,
            DataAccessError::RenderError => INTERNAL_SERVER_ERROR,
        }
    }

    /// The message that describes the failure.
    pub fn message(&self) -> (r: String)
        ensures
            r@ == failure_message(*self),
    {
        match self {
            DataAccessError::PoolError => String::from_str("Failed to get a database connection"),
            DataAccessError::QueryError => String::from_str("Database query failed"),
            DataAccessError::RenderError => String::from_str("Failed to render HTML"),
        }
    }
}

/// A failure of the storage side: no connection, or a failed statement.
pub open spec fn is_backend_failure(e: DataAccessError) -> bool {
    e == DataAccessError::PoolError || e == DataAccessError::QueryError
}

pub open spec fn failure_message(e: DataAccessError) -> Seq<char> {
    match e {
        DataAccessError::PoolError => "Failed to get a database connection"@,
        DataAccessError::QueryError => "Database query failed"@,
        DataAccessError::RenderError => "Failed to render HTML"@,
    }
}

} // verus!
