//! Why a service could not do what it was asked.

use crate::model::repository::error::Error as RepositoryError;
use vstd::prelude::*;
use vstd::string::*;

verus! {

pub enum Error {
    /// No identity has the given username and secret.
    InvalidCredentialsError,
    /// A session was found under another username than the one looked for.
    UsernameMismatchError,
    /// No record has the given id.
    NotFoundError,
    /// The store failed; the words are the store's own.
    StorageError(String),
}

pub type ServiceResult<T> = Result<T, Error>;

impl Error {
    /// The words for this error.
    pub open spec fn message(&self) -> Seq<char> {
        match self {
            Error::InvalidCredentialsError => "Invalid credentials"@,
            Error::UsernameMismatchError => "Username doesn't match"@,
            Error::NotFoundError => "Record not found"@,
            Error::StorageError(cause) => cause@,
        }
    }

    pub fn to_string(&self) -> (r: String)
        ensures
            r@ == self.message(),
    {
        match self {
            Error::InvalidCredentialsError => String::from_str("Invalid credentials"),
            Error::UsernameMismatchError => String::from_str("Username doesn't match"),
            Error::NotFoundError => String::from_str("Record not found"),
            Error::StorageError(cause) => cause.clone(),
        }
    }

    /// Whether this error wraps `error`, a failure of the store: it is a
    /// storage error with the store's words.
    pub open spec fn wraps(&self, error: RepositoryError) -> bool {
        *self is StorageError && self.message() == error.message()
    }

    /// Wraps a failure of the store.
    pub fn storage(error: &RepositoryError) -> (r: Error)
        ensures
            r.wraps(*error),
    {
        Error::StorageError(error.to_string())
    }
}

} // verus!
