//! The credential service: sign-up, sign-in, and profile lookup.
//!
//! Sign-up checks e-mail uniqueness, hashes the password, and persists a new
//! record; a taken e-mail is reported without any write.  Sign-in looks the
//! account up, verifies the password, and issues a signed token; a missing
//! account and a failed verification collapse to the same rejection, so a
//! caller cannot probe which e-mail addresses exist.  Profile lookup trusts a
//! subject id the request guard has already verified.

use vstd::prelude::*;

use crate::password::{bcrypt_check, hash_password, verify_password};
use crate::store::{spec_find_email, spec_find_id, UserRecord, UserStore};
use crate::token::{jwt_payload, token_of, Claims, TokenCodec, TOKEN_TTL_SECS};

verus! {

/// Every failure the service and the guard classify, one kind per named
/// outcome.  Only unanticipated persistence failures pass through as
/// [`AuthError::StorageFailure`], carrying the underlying message.
#[derive(Debug, PartialEq, Eq)]
pub enum AuthError {
    InvalidCredentials,
    EmailTaken,
    TokenAbsent,
    TokenInvalid,
    NotFound,
    StorageFailure(String),
}

/// Whether sign-in accepts the pair: some stored record carries the e-mail
/// and the password checks against its stored hash.
pub open spec fn spec_sign_in_accepts(
    users: Seq<UserRecord>,
    email: Seq<char>,
    password: Seq<char>,
) -> bool {
    match spec_find_email(users, email) {
        Some(rec) => bcrypt_check(password, rec.password@) == Some(true),
        None => false,
    }
}

/// Orchestrates credential checks and token issuance.  Shares the codec, and
/// with it the configured secret, with the request guard.
pub struct CredentialService {
    pub codec: TokenCodec,
}

impl CredentialService {
    pub fn new(codec: TokenCodec) -> (s: CredentialService)
        ensures
            s.codec == codec,
    {
        CredentialService { codec }
    }

    /// Registers a new account.  A taken e-mail (exact, case-sensitive
    /// match) is rejected with no write.  Otherwise the password is hashed
    /// and a record appended under the next free id; the plaintext is never
    /// stored.  Only a hashing failure or an exhausted id space — both
    /// unanticipated — leave the store unchanged with a storage failure.
    pub fn sign_up(
        &self,
        store: &mut UserStore,
        email: String,
        password: &String,
        firstname: Option<String>,
        lastname: Option<String>,
    ) -> (r: Result<i32, AuthError>)
        requires
            old(store).wf(),
        ensures
            final(store).wf(),
            (match spec_find_email(old(store)@, email@) {
                Some(_) => {
                    &&& r matches Err(e) && e == AuthError::EmailTaken
                    &&& final(store)@ == old(store)@
                    &&& final(store).spec_next_id() == old(store).spec_next_id()
                },
                None => (match r {
                    Ok(id) => {
                        &&& id == old(store).spec_next_id()
                        &&& final(store).spec_next_id() == old(store).spec_next_id() + 1
                        &&& final(store)@ == old(store)@.push(final(store)@.last())
                        &&& final(store)@.len() == old(store)@.len() + 1
                        &&& final(store)@.last().id == id
                        &&& final(store)@.last().email == email
                        &&& bcrypt_check(password@, final(store)@.last().password@) == Some(true)
                        &&& final(store)@.last().firstname == firstname
                        &&& final(store)@.last().lastname == lastname
                    },
                    Err(e) => {
                        &&& e matches AuthError::StorageFailure(_)
                        &&& final(store)@ == old(store)@
                        &&& final(store).spec_next_id() == old(store).spec_next_id()
                    },
                }),
            }),
    {
        if store.find_by_email(&email).is_some() {
            return Err(AuthError::EmailTaken);
        }
        let hash = match hash_password(password) {
            Ok(h) => h,
            Err(m) => {
                return Err(AuthError::StorageFailure(m));
            },
        };
        match store.insert(email, hash, firstname, lastname) {
            Ok(id) => Ok(id),
            Err(()) => Err(
                AuthError::StorageFailure("credential store id space exhausted".to_string()),
            ),
        }
    }

    /// Authenticates a pair.  Every accepted pair is owed a token — issuance
    /// never fails — carrying the account's id, the role tag "user", and an
    /// expiry four hours past `now` (the caller's wall-clock reading in
    /// seconds since the Unix epoch).  An unknown e-mail, a wrong password,
    /// and an unparseable stored hash all yield the one rejection
    /// [`AuthError::InvalidCredentials`]: the outcome never reveals whether
    /// the e-mail exists.
    pub fn sign_in(
        &self,
        store: &UserStore,
        email: &String,
        password: &String,
        now: u64,
    ) -> (r: Result<String, AuthError>)
        requires
            store.wf(),
            now <= u64::MAX - TOKEN_TTL_SECS,
        ensures
            (r matches Err(e) && e == AuthError::InvalidCredentials) <==> !spec_sign_in_accepts(
                store@,
                email@,
                password@,
            ),
            (match spec_find_email(store@, email@) {
                None => r matches Err(e) && e == AuthError::InvalidCredentials,
                Some(rec) => {
                    if bcrypt_check(password@, rec.password@) == Some(true) {
                        (match r {
                            Ok(t) => {
                                &&& t@ == token_of(
                                    self.codec.spec_secret(),
                                    rec.id as int,
                                    "user"@,
                                    (now + TOKEN_TTL_SECS) as u64,
                                )
                                &&& jwt_payload(self.codec.spec_secret(), t@) == Some(
                                    (rec.id as int, "user"@, (now + TOKEN_TTL_SECS) as u64),
                                )
                                &&& t@.len() > 0
                            },
                            Err(_) => false,
                        })
                    } else {
                        r matches Err(e) && e == AuthError::InvalidCredentials
                    }
                },
            }),
    {
        let rec = match store.find_by_email(email) {
            Some(rec) => rec,
            None => {
                return Err(AuthError::InvalidCredentials);
            },
        };
        let ok = match verify_password(password, &rec.password) {
            Some(b) => b,
            None => false,
        };
        if !ok {
            return Err(AuthError::InvalidCredentials);
        }
        let claims = Claims { sub: rec.id, role: "user".to_string(), exp: now + TOKEN_TTL_SECS };
        Ok(self.codec.issue(&claims))
    }

    /// Fetches the current record for a subject id the guard has already
    /// verified.  The token only proves identity; profile fields are read
    /// fresh, since they may have changed after issuance.
    pub fn get_profile<'a>(&self, store: &'a UserStore, subject_id: i32) -> (r: Result<
        &'a UserRecord,
        AuthError,
    >)
        ensures
            (match r {
                Ok(rec) => spec_find_id(store@, subject_id as int) == Some(*rec),
                Err(e) => {
                    &&& e == AuthError::NotFound
                    &&& spec_find_id(store@, subject_id as int) is None
                },
            }),
    {
        match store.find_by_id(subject_id) {
            Some(rec) => Ok(rec),
            None => Err(AuthError::NotFound),
        }
    }
}

} // verus!
