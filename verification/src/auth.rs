//! The request guard.
//!
//! A protected route declares that it needs an authenticated identity; the
//! guard produces one from the inbound request's `Token` header, or rejects
//! the request before the handler runs.  It fails closed: a missing header
//! and an invalid or expired token are both rejections, never implicit
//! trust.  The guard does no storage lookup — the signature and expiry are
//! its whole proof of identity for the request's duration, so a token issued
//! to a since-deleted account stays valid until it expires.

use vstd::prelude::*;

use crate::token::TokenCodec;

verus! {

/// The two ways the guard rejects a request: no `Token` header at all, or a
/// header whose value does not decode to valid, unexpired claims.
#[derive(Clone, Copy, Debug, PartialEq, Eq, Structural)]
pub enum GuardError {
    TokenAbsent,
    TokenInvalid,
}

/// The slice of an inbound request the guard reads: the value of its `Token`
/// header, if the request carried one.
pub struct RequestContext {
    pub token: Option<String>,
}

/// The verified identity a passing guard injects into the handler: the
/// subject id from the token's claims, and nothing more.  Built fresh per
/// request and discarded with it.
pub struct AuthenticatedUser {
    pub id: i32,
}

impl AuthenticatedUser {
    /// Extracts and validates the `Token` header at instant `now` (the
    /// caller's wall-clock reading in seconds since the Unix epoch).  A
    /// missing header is rejected as [`GuardError::TokenAbsent`]; a header
    /// that fails the codec's single validation pass — structure, signature,
    /// expiry — as [`GuardError::TokenInvalid`].
    pub fn from_request(req: &RequestContext, codec: &TokenCodec, now: u64) -> (r: Result<
        AuthenticatedUser,
        GuardError,
    >)
        ensures
            (match req.token {
                None => r == Err::<AuthenticatedUser, GuardError>(GuardError::TokenAbsent),
                Some(t) => (match TokenCodec::spec_decode(codec.spec_secret(), t@, now) {
                    Some(p) => r matches Ok(u) && u.id as int == p.0,
                    None => r == Err::<AuthenticatedUser, GuardError>(GuardError::TokenInvalid),
                }),
            }),
    {
        match &req.token {
            None => Err(GuardError::TokenAbsent),
            Some(token) => match codec.decode(token, now) {
                None => Err(GuardError::TokenInvalid),
                Some(claims) => Ok(AuthenticatedUser { id: claims.sub }),
            },
        }
    }
}

} // verus!
