//! The authentication routes: sign-in, sign-up, and the guarded profile
//! route, each returning the uniform envelope.
//!
//! Per request the pipeline runs: receive, guard (on protected routes),
//! handle, render.  The handlers here are the handle step; [`handle_me`]
//! additionally runs the guard first, exactly as the pipeline does, and
//! shows that a request without a token never reaches the handler.

use vstd::prelude::*;

use crate::auth::{AuthenticatedUser, GuardError, RequestContext};
use crate::controllers::{
    error_response, spec_error_message, Response, Status, SuccessResponse,
};
use crate::password::bcrypt_check;
use crate::service::{spec_sign_in_accepts, AuthError, CredentialService};
use crate::store::{spec_find_email, spec_find_id, UserStore};
use crate::token::{jwt_payload, token_of, TokenCodec, TOKEN_TTL_SECS};

verus! {

/// The sign-in request body: an e-mail address and a plaintext password.
pub struct ReqSignIn {
    pub email: String,
    pub password: String,
}

/// The sign-in success body: the issued token.
pub struct ResSignIn {
    pub token: String,
}

/// The sign-up request body; the name fields are optional.
pub struct ReqSignUp {
    pub email: String,
    pub password: String,
    pub firstname: Option<String>,
    pub lastname: Option<String>,
}

/// The profile body returned by the guarded "who am I" route.
pub struct ResMe {
    pub id: i32,
    pub email: String,
    pub firstname: Option<String>,
    pub lastname: Option<String>,
}

/// Sign-in.  Accepted pairs are owed status 200 and a non-empty token
/// carrying the account's id; every rejected pair — unknown e-mail or
/// failed password check alike — gets the one 401 response, so the two
/// causes are indistinguishable to the caller.
pub fn sigin_in(
    store: &UserStore,
    service: &CredentialService,
    req: &ReqSignIn,
    now: u64,
) -> (r: Response<ResSignIn>)
    requires
        store.wf(),
        now <= u64::MAX - TOKEN_TTL_SECS,
    ensures
        !spec_sign_in_accepts(store@, req.email@, req.password@) ==> (r matches Err(e)
            && e.0.0.code == 401 && e.0.1@ == "Invalid credentials"@),
        spec_sign_in_accepts(store@, req.email@, req.password@) ==> (match r {
            Ok(s) => {
                &&& s.0.0.code == 200
                &&& s.0.1.token@.len() > 0
                &&& (match spec_find_email(store@, req.email@) {
                    Some(rec) => {
                        &&& s.0.1.token@ == token_of(
                            service.codec.spec_secret(),
                            rec.id as int,
                            "user"@,
                            (now + TOKEN_TTL_SECS) as u64,
                        )
                        &&& jwt_payload(service.codec.spec_secret(), s.0.1.token@) == Some(
                            (rec.id as int, "user"@, (now + TOKEN_TTL_SECS) as u64),
                        )
                    },
                    None => false,
                })
            },
            Err(_) => false,
        }),
{
    match service.sign_in(store, &req.email, &req.password, now) {
        Ok(token) => Ok(SuccessResponse((Status { code: 200 }, ResSignIn { token }))),
        Err(e) => Err(error_response(e)),
    }
}

/// Sign-up.  A fresh e-mail gets status 201 and exactly one new record,
/// holding the hashed password and the request's fields; a taken e-mail
/// gets status 422 and no write at all.
pub fn sigin_up(store: &mut UserStore, service: &CredentialService, req: &ReqSignUp) -> (r:
    Response<String>)
    requires
        old(store).wf(),
    ensures
        final(store).wf(),
        (match spec_find_email(old(store)@, req.email@) {
            Some(_) => {
                &&& r matches Err(e) && e.0.0.code == 422 && e.0.1@
                    == "An account exists with that email address."@
                &&& final(store)@ == old(store)@
            },
            None => (match r {
                Ok(s) => {
                    &&& s.0.0.code == 201
                    &&& s.0.1@ == "Account created!"@
                    &&& final(store)@ == old(store)@.push(final(store)@.last())
                    &&& final(store)@.len() == old(store)@.len() + 1
                    &&& final(store)@.last().id == old(store).spec_next_id()
                    &&& final(store)@.last().email == req.email
                    &&& bcrypt_check(req.password@, final(store)@.last().password@) == Some(true)
                    &&& final(store)@.last().firstname == req.firstname
                    &&& final(store)@.last().lastname == req.lastname
                },
                Err(e) => {
                    &&& e.0.0.code == 500
                    &&& final(store)@ == old(store)@
                },
            }),
        }),
{
    let email = req.email.clone();
    let firstname = match &req.firstname {
        Some(s) => Some(s.clone()),
        None => None,
    };
    let lastname = match &req.lastname {
        Some(s) => Some(s.clone()),
        None => None,
    };
    match service.sign_up(store, email, &req.password, firstname, lastname) {
        Ok(_) => Ok(SuccessResponse((Status { code: 201 }, "Account created!".to_string()))),
        Err(e) => Err(error_response(e)),
    }
}

/// The profile handler.  It trusts the guard-verified subject id, re-fetches
/// the record, and returns its current fields with status 200, or 404 when
/// no record carries that id any more.
pub fn me(store: &UserStore, service: &CredentialService, user: &AuthenticatedUser) -> (r:
    Response<ResMe>)
    ensures
        (match spec_find_id(store@, user.id as int) {
            Some(rec) => {
                &&& r matches Ok(s)
                &&& s.0.0.code == 200
                &&& s.0.1.id == user.id
                &&& s.0.1.email == rec.email
                &&& s.0.1.firstname == rec.firstname
                &&& s.0.1.lastname == rec.lastname
            },
            None => r matches Err(e) && e.0.0.code == 404 && e.0.1@ == spec_error_message(
                AuthError::NotFound,
            ),
        }),
{
    match service.get_profile(store, user.id) {
        Ok(rec) => {
            let firstname = match &rec.firstname {
                Some(s) => Some(s.clone()),
                None => None,
            };
            let lastname = match &rec.lastname {
                Some(s) => Some(s.clone()),
                None => None,
            };
            Ok(SuccessResponse(
                (
                    Status { code: 200 },
                    ResMe { id: user.id, email: rec.email.clone(), firstname, lastname },
                ),
            ))
        },
        Err(e) => Err(error_response(e)),
    }
}

/// The guarded profile route, run as the pipeline runs it: the guard first,
/// the handler only on a pass.  A request with no `Token` header is rejected
/// with 401 "Token absent" before the handler executes, and one whose token
/// fails the single validation pass with 401 "Invalid token"; in both cases
/// the response is fixed by this contract alone, whatever the handler would
/// have done.
pub fn handle_me(
    store: &UserStore,
    service: &CredentialService,
    req: &RequestContext,
    now: u64,
) -> (r: Response<ResMe>)
    ensures
        req.token is None ==> (r matches Err(e) && e.0.0.code == 401 && e.0.1@
            == "Token absent"@),
        (match req.token {
            None => true,
            Some(t) => (match TokenCodec::spec_decode(service.codec.spec_secret(), t@, now) {
                None => r matches Err(e) && e.0.0.code == 401 && e.0.1@ == "Invalid token"@,
                Some(p) => (match spec_find_id(store@, p.0) {
                    Some(rec) => {
                        &&& r matches Ok(s)
                        &&& s.0.0.code == 200
                        &&& s.0.1.id as int == p.0
                        &&& s.0.1.email == rec.email
                        &&& s.0.1.firstname == rec.firstname
                        &&& s.0.1.lastname == rec.lastname
                    },
                    None => r matches Err(e) && e.0.0.code == 404 && e.0.1@ == spec_error_message(
                        AuthError::NotFound,
                    ),
                }),
            }),
        }),
{
    match AuthenticatedUser::from_request(req, &service.codec, now) {
        Err(GuardError::TokenAbsent) => Err(error_response(AuthError::TokenAbsent)),
        Err(GuardError::TokenInvalid) => Err(error_response(AuthError::TokenInvalid)),
        Ok(user) => me(store, service, &user),
    }
}

} // verus!
