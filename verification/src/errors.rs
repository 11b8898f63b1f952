//! The errors that the account handlers answer with.

use vstd::prelude::*;
use crate::validation::FieldError;

verus! {

/// The failures of the account endpoints.
#[derive(Debug)]
pub enum CustomError {
    /// The payload failed its field checks; `e` lists each failed check.
    ValidationError { e: Vec<FieldError> },
    /// The database refused the insert (a duplicate account).
    Conflict,
    /// The database failed otherwise.
    ServerError,
    /// No account matches the e-mail address.
    NotFound,
    /// The password does not match.
    Unauthorized,
}

impl CustomError {
    /// The HTTP status that answers the error: 400 for a failed check, 409 for a
    /// duplicate account, 500 for a database failure, 404 for an unknown account and
    /// 401 for a wrong password.
    pub open spec fn status_spec(&self) -> u16 {
        match self {
            CustomError::ValidationError { .. } => 400,
            CustomError::Conflict => 409,
            CustomError::ServerError => 500,
            CustomError::NotFound => 404,
            CustomError::Unauthorized => 401,
        }
    }

    /// The HTTP status that answers the error.
    pub fn status_code(&self) -> (r: u16)
        ensures
            r == self.status_spec(),
    {
        match self {
            CustomError::ValidationError { .. } => 400,
            CustomError::Conflict => 409,
            CustomError::ServerError => 500,
            CustomError::NotFound => 404,
            CustomError::Unauthorized => 401,
        }
    }
}

} // verus!
