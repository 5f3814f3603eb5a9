//! The health check.

use crate::infrastructure::responses::{
    Accepted, ApplicationResult, Error, ErrorResponse, StatusCode,
};
use crate::model::error::ServiceResult;
use crate::model::user_service::UserService;
use vstd::prelude::*;
use vstd::string::*;

verus! {

/// The answer of the health check to the outcome of a count of the
/// identities: `pong` where the count came back, else an internal error with
/// the words of the failure.
pub fn pong(total: &ServiceResult<i64>) -> (r: ApplicationResult<Accepted<String>>)
    ensures
        match *total {
            Ok(_) => r matches Ok(accepted) && (accepted.0 matches Some(body) && body@ == "pong"@),
            Err(err) => r matches Err(e) && e is StandardError && e.message() == err.message(),
        },
{
    match total {
        Ok(_) => Ok(Accepted(Some(String::from_str("pong")))),
        Err(err) => Err(
            ErrorResponse::create_error(err.to_string().as_str(), StatusCode::InternalServerError),
        ),
    }
}

/// Answers `pong` where the store behind the user service can be queried.
pub fn ping<US: UserService>(user_service: &US) -> (r: ApplicationResult<Accepted<String>>)
    ensures
        user_service.reliable() && user_service.identities().len() <= i64::MAX ==> r is Ok,
        match r {
            Ok(accepted) => accepted.0 matches Some(body) && body@ == "pong"@,
            Err(e) => e is StandardError,
        },
{
    let result = user_service.total();
    pong(&result)
}

} // verus!
