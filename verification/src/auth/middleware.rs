//! The access token as it arrives with a request.

use crate::infrastructure::responses::StatusCode;
use vstd::prelude::*;

verus! {

/// The value of the `x-access-token` header of a request.
pub struct AccessToken(String);

impl View for AccessToken {
    type V = Seq<char>;

    closed spec fn view(&self) -> Seq<char> {
        self.0@
    }
}

#[derive(Clone, Copy, Debug, PartialEq, Eq, Structural)]
pub enum AccessTokenError {
    /// The request carries the header more than once.
    BadCount,
    /// The request does not carry the header.
    Missing,
}

impl AccessToken {
    pub fn new(token: String) -> (r: AccessToken)
        ensures
            r@ == token@,
    {
        AccessToken(token)
    }

    pub fn get_token(&self) -> (r: String)
        ensures
            r@ == self@,
    {
        self.0.clone()
    }

    /// Reads the access token from the values that a request gives for the
    /// header: exactly one value is the token. No value and several values
    /// are both answered as a bad request, each with its own error.
    pub fn from_header_values(tokens: &Vec<String>) -> (r: Result<
        AccessToken,
        (StatusCode, AccessTokenError),
    >)
        ensures
            tokens@.len() == 0 ==> r == Err::<AccessToken, (StatusCode, AccessTokenError)>(
                (StatusCode::BadRequest, AccessTokenError::Missing),
            ),
            tokens@.len() == 1 ==> r is Ok && r->Ok_0@ == tokens@[0]@,
            tokens@.len() > 1 ==> r == Err::<AccessToken, (StatusCode, AccessTokenError)>(
                (StatusCode::BadRequest, AccessTokenError::BadCount),
            ),
    {
        if tokens.len() == 0 {
            Err((StatusCode::BadRequest, AccessTokenError::Missing))
        } else if tokens.len() == 1 {
            Ok(AccessToken(tokens[0].clone()))
        } else {
            Err((StatusCode::BadRequest, AccessTokenError::BadCount))
        }
    }
}

} // verus!
