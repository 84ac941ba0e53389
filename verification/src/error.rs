use vstd::prelude::*;

verus! {

/// The status codes this service answers with.
#[derive(Clone, Copy, Debug, PartialEq, Eq, Structural)]
pub enum StatusCode {
    Success,
    Created,
    BadRequest,
    NotFound,
    InternalServerError,
}

impl StatusCode {
    /// The three-digit number sent on the wire.
    pub open spec fn code(self) -> int {
        match self {
            StatusCode::Success => 200,
            StatusCode::Created => 201,
            StatusCode::BadRequest => 400,
            StatusCode::NotFound => 404,
            StatusCode::InternalServerError => 500,
        }
    }

    /// The number of the status.
    pub fn as_u16(&self) -> (n: u16)
        ensures
            n == self.code(),
    {
        match self {
            StatusCode::Success => 200,
            StatusCode::Created => 201,
            StatusCode::BadRequest => 400,
            StatusCode::NotFound => 404,
            StatusCode::InternalServerError => 500,
        }
    }
}

/// Why the store could not carry out a statement.
#[derive(Clone, Copy, Debug, PartialEq, Eq, Structural)]
pub enum StorageError {
    /// The pool or the connection failed.
    Connectivity,
    /// The statement broke a constraint of the table.
    Constraint,
    /// The statement or its rows could not be processed.
    Query,
}

/// Everything that can go wrong with a request.
#[derive(Clone, Copy, Debug, PartialEq, Eq, Structural)]
pub enum ServiceError {
    /// The body or the path identifier is malformed; caused by the client.
    Validation,
    /// The statement matched no row.
    NotFound,
    /// The store failed.
    Storage(StorageError),
}

impl ServiceError {
    /// 400 for a validation error, 404 for a row that is not there, 500 for
    /// any failure of the store.
    pub open spec fn spec_status(self) -> StatusCode {
        match self {
            ServiceError::Validation => StatusCode::BadRequest,
            ServiceError::NotFound => StatusCode::NotFound,
            ServiceError::Storage(_) => StatusCode::InternalServerError,
        }
    }

    /// The status code that answers an error. Every handler goes through
    /// this one function.
    #[verifier::when_used_as_spec(spec_status)]
    pub fn status(self) -> (s: StatusCode)
        ensures
            s == self.spec_status(),
    {
        match self {
            ServiceError::Validation => StatusCode::BadRequest,
            ServiceError::NotFound => StatusCode::NotFound,
            ServiceError::Storage(_) => StatusCode::InternalServerError,
        }
    }
}

} // verus!
