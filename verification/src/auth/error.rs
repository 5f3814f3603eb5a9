//! Why a token could not be issued or did not authorize its bearer.

use vstd::prelude::*;

verus! {

#[derive(Clone, Copy, Debug, PartialEq, Eq, Structural)]
pub enum Error {
    /// The presented header does not start with the bearer prefix.
    InvalidAuthHeaderError,
    /// Signing a new token failed.
    JWTTokenCreationError,
    /// The token's signature does not verify, the token has expired, or its
    /// claims are not those of a token of this service.
    JWTTokenError,
    /// The token is valid but speaks for another identity.
    NoPermissionError,
}

pub type AuthResult<T> = Result<T, Error>;

} // verus!
