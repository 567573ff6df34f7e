//! The uniform response envelope.
//!
//! Every handler returns a [`Response`]: either a [`SuccessResponse`] carrying
//! a status and a typed body, or an [`ErrorResponse`] carrying a status and a
//! message.  Handlers never build transport-level responses themselves; the
//! boundary layer renders the envelope.

use vstd::prelude::*;

use crate::service::AuthError;

pub mod auth;

verus! {

/// An HTTP status code.
#[derive(Clone, Copy, Debug, PartialEq, Eq, Structural)]
pub struct Status {
    pub code: u16,
}

/// A successful outcome: a status code together with the response body.
#[derive(Debug)]
pub struct SuccessResponse<T>(pub (Status, T));

/// A failed outcome: a status code together with an error message that the
/// boundary serialises as the response body.
#[derive(Debug)]
pub struct ErrorResponse(pub (Status, String));

/// The result type every handler returns.
pub type Response<T> = Result<SuccessResponse<T>, ErrorResponse>;

/// The status code the boundary renders for each failure kind: 401 for
/// credential and token failures, 422 for the sign-up conflict, 404 for a
/// missing resource, 500 for an unclassified storage failure.
pub open spec fn spec_error_status(e: AuthError) -> u16 {
    match e {
        AuthError::InvalidCredentials => 401,
        AuthError::EmailTaken => 422,
        AuthError::TokenAbsent => 401,
        AuthError::TokenInvalid => 401,
        AuthError::NotFound => 404,
        AuthError::StorageFailure(_) => 500,
    }
}

/// The message the boundary renders for each failure kind.  Only the
/// storage-failure case carries the underlying message through — the one
/// accepted leak of an internal message.
pub open spec fn spec_error_message(e: AuthError) -> Seq<char> {
    match e {
        AuthError::InvalidCredentials => "Invalid credentials"@,
        AuthError::EmailTaken => "An account exists with that email address."@,
        AuthError::TokenAbsent => "Token absent"@,
        AuthError::TokenInvalid => "Invalid token"@,
        AuthError::NotFound => "Cannot find a user with the specified ID."@,
        AuthError::StorageFailure(m) => m@,
    }
}

/// The single place where classified failures become transport responses: a
/// pure mapping from failure kind to status and message.
pub fn error_response(e: AuthError) -> (r: ErrorResponse)
    ensures
        r.0.0.code == spec_error_status(e),
        r.0.1@ == spec_error_message(e),
{
    match e {
        AuthError::InvalidCredentials => ErrorResponse(
            (Status { code: 401 }, "Invalid credentials".to_string()),
        ),
        AuthError::EmailTaken => ErrorResponse(
            (Status { code: 422 }, "An account exists with that email address.".to_string()),
        ),
        AuthError::TokenAbsent => ErrorResponse((Status { code: 401 }, "Token absent".to_string())),
        AuthError::TokenInvalid => ErrorResponse(
            (Status { code: 401 }, "Invalid token".to_string()),
        ),
        AuthError::NotFound => ErrorResponse(
            (Status { code: 404 }, "Cannot find a user with the specified ID.".to_string()),
        ),
        AuthError::StorageFailure(m) => ErrorResponse((Status { code: 500 }, m)),
    }
}

} // verus!
