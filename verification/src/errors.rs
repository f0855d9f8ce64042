//! The error taxonomy of the backend: a request either failed
//! authentication or hit an unexpected internal fault.

use vstd::prelude::*;

verus! {

/// Why a request was refused.
///
/// `InvalidCredentials` covers a bad password, a missing password and a
/// bad or missing bearer token; `UnexpectedError` covers storage
/// conflicts and any internal fault of a collaborator.
#[derive(Clone, Copy, Debug, PartialEq, Eq, Structural)]
pub enum AuthError {
    InvalidCredentials,
    UnexpectedError,
}

impl AuthError {
    /// The HTTP status an error maps to: authentication failures are
    /// client errors, everything else is an internal server error.
    pub fn status_code(&self) -> (code: u16)
        ensures
            code == (match self {
                AuthError::InvalidCredentials => 401u16,
                AuthError::UnexpectedError => 500u16,
            }),
    {
        match self {
            AuthError::InvalidCredentials => 401,
            AuthError::UnexpectedError => 500,
        }
    }
}

} // verus!
