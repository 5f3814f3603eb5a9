//! Why a store could not answer.

use vstd::prelude::*;
use vstd::string::*;

verus! {

pub enum Error {
    /// No row matches the query.
    NotFound,
    /// The store cannot be reached.
    ConnectionError,
    /// Any other failure of the store, with the store's own words for it.
    DieselError(String),
}

pub type RepoResult<T> = Result<T, Error>;

impl Error {
    /// The words for this error.
    pub open spec fn message(&self) -> Seq<char> {
        match self {
            Error::NotFound => "Record not found"@,
            Error::ConnectionError => "cannot open database connection"@,
            Error::DieselError(words) => words@,
        }
    }

    pub fn to_string(&self) -> (r: String)
        ensures
            r@ == self.message(),
    {
        match self {
            Error::NotFound => String::from_str("Record not found"),
            Error::ConnectionError => String::from_str("cannot open database connection"),
            Error::DieselError(words) => words.clone(),
        }
    }
}

} // verus!
