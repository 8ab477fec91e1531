//! The errors that the library's operations report, and the HTTP status
//! each is answered with.

use vstd::prelude::*;

verus! {

/// Why a request could not be carried out.
#[derive(Debug)]
pub enum GreaseError {
    /// The request was malformed or asked for something the rules forbid.
    BadRequest(String),
    /// The stored data was inconsistent.
    ServerError(String),
    /// No logged-in member could be found for the request.
    Unauthorized,
    /// The member lacks the named permission.
    Forbidden(Option<String>),
    /// The database returned an error, with its message.
    DbError(String),
    /// The local time could not be found, with the reason.
    GetLocalTimeError(String),
    /// No database address was configured.
    DbUrlNotProvided,
    /// The query API reported an error, with its message.
    GqlError(String),
    /// The token header could not be read, with the reason.
    InvalidTokenHeader(String),
}

/// The library's result type.
pub type GreaseResult<T> = Result<T, GreaseError>;

/// The HTTP status an error is answered with: failures of the server's own
/// resources are internal errors, bad queries and unreadable tokens are bad
/// requests, and the remaining kinds get the status their names give.
pub open spec fn spec_status_code(error: GreaseError) -> u16 {
    match error {
        GreaseError::DbError(_) | GreaseError::GetLocalTimeError(_) | GreaseError::DbUrlNotProvided => 500,
        GreaseError::GqlError(_) | GreaseError::InvalidTokenHeader(_) => 400,
        GreaseError::BadRequest(_) => 400,
        GreaseError::ServerError(_) => 500,
        GreaseError::Unauthorized => 401,
        GreaseError::Forbidden(_) => 403,
    }
}

impl GreaseError {
    /// The HTTP status this error is answered with.
    pub fn status_code(&self) -> (code: u16)
        ensures
            code == spec_status_code(*self),
    {
        match self {
            GreaseError::DbError(_) | GreaseError::GetLocalTimeError(_) | GreaseError::DbUrlNotProvided => 500,
            GreaseError::GqlError(_) | GreaseError::InvalidTokenHeader(_) => 400,
            GreaseError::BadRequest(_) => 400,
            GreaseError::ServerError(_) => 500,
            GreaseError::Unauthorized => 401,
            GreaseError::Forbidden(_) => 403,
        }
    }
}

} // verus!
