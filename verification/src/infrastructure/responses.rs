//! The answers of the handlers: what a request succeeds with, and the errors
//! with their status.

use vstd::prelude::*;
use vstd::string::*;

verus! {

/// The pairs of a small answer, each a name and a value. No name stands
/// twice in an answer: `distinct_names` holds of it.
pub type GenericResponse = Vec<(String, String)>;

/// Whether no name stands twice among the pairs.
pub open spec fn distinct_names(pairs: Seq<(String, String)>) -> bool {
    forall|i: int, j: int| 0 <= i < j < pairs.len() ==> pairs[i].0@ != pairs[j].0@
}

/// The status codes that the handlers tell apart.
#[derive(Clone, Copy, Debug, PartialEq, Eq, Structural)]
pub enum StatusCode {
    BadRequest,
    Unauthorized,
    NotFound,
    InternalServerError,
}

/// The answer to a request that created a record: where the record is found,
/// and the body.
pub struct Created<R>(pub String, pub Option<R>);

/// The answer to a request that was accepted, with its body.
pub struct Accepted<R>(pub Option<R>);

/// The body of every error: its message.
pub struct ErrorResponse {
    pub message: String,
}

/// An error as a handler answers it. Each variant stands for one status:
/// 400, 401 and 500.
pub enum Error {
    BadRequestError(ErrorResponse),
    UnauthorizedError(ErrorResponse),
    StandardError(ErrorResponse),
}

pub type ApplicationResult<T> = Result<T, Error>;

impl Error {
    /// The message of this error.
    pub open spec fn message(&self) -> Seq<char> {
        match self {
            Error::BadRequestError(body) => body.message@,
            Error::UnauthorizedError(body) => body.message@,
            Error::StandardError(body) => body.message@,
        }
    }

    /// The status that this error is answered with.
    pub open spec fn status(&self) -> int {
        match self {
            Error::BadRequestError(_) => 400,
            Error::UnauthorizedError(_) => 401,
            Error::StandardError(_) => 500,
        }
    }

    pub fn get_message(&self) -> (r: String)
        ensures
            r@ == self.message(),
    {
        match self {
            Error::BadRequestError(body) => body.message.clone(),
            Error::UnauthorizedError(body) => body.message.clone(),
            Error::StandardError(body) => body.message.clone(),
        }
    }

    pub fn get_status(&self) -> (r: u16)
        ensures
            r == self.status(),
    {
        match self {
            Error::BadRequestError(_) => 400,
            Error::UnauthorizedError(_) => 401,
            Error::StandardError(_) => 500,
        }
    }
}

/// The error that a message and a status code make: a bad request and a
/// lack of authorization keep their status, every other code is answered as
/// an internal error.
pub open spec fn error_of(message: Seq<char>, http_status_code: StatusCode, error: Error) -> bool {
    &&& error.message() == message
    &&& match http_status_code {
        StatusCode::BadRequest => error is BadRequestError,
        StatusCode::Unauthorized => error is UnauthorizedError,
        _ => error is StandardError,
    }
}

impl ErrorResponse {
    pub fn create_error(message: &str, http_status_code: StatusCode) -> (r: Error)
        ensures
            error_of(message@, http_status_code, r),
    {
        match http_status_code {
            StatusCode::BadRequest => Error::BadRequestError(
                ErrorResponse { message: String::from_str(message) },
            ),
            StatusCode::Unauthorized => Error::UnauthorizedError(
                ErrorResponse { message: String::from_str(message) },
            ),
            _ => Error::StandardError(ErrorResponse { message: String::from_str(message) }),
        }
    }
}

} // verus!
