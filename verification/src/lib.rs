//! Token-gated identity layer for a small book-catalogue service.
//!
//! The crate covers the authentication core: salted password hashing with a
//! constant-time check, issuance and validation of signed expiring tokens,
//! credential sign-up and sign-in over a user store with unique e-mail
//! addresses, a fail-closed request guard, and the uniform success/error
//! envelope that every handler returns.  Persistence and transport plumbing
//! live outside the library and hand it plain values.

use vstd::prelude::*;

pub mod auth;
pub mod controllers;
pub mod fairings;
pub mod laws;
pub mod password;
pub mod service;
pub mod store;
pub mod token;

verus! {

/// Process-wide configuration, established once at startup and read-only
/// thereafter.  The signing secret is required; the caller that sources the
/// configuration must refuse to start without one.
pub struct AppConfig {
    pub db_host: String,
    pub db_port: String,
    pub db_username: String,
    pub db_password: String,
    pub db_database: String,
    pub jwt_secret: String,
}

impl AppConfig {
    pub fn new(
        db_host: String,
        db_port: String,
        db_username: String,
        db_password: String,
        db_database: String,
        jwt_secret: String,
    ) -> (c: AppConfig)
        ensures
            c.db_host@ == db_host@,
            c.db_port@ == db_port@,
            c.db_username@ == db_username@,
            c.db_password@ == db_password@,
            c.db_database@ == db_database@,
            c.jwt_secret@ == jwt_secret@,
    {
        AppConfig { db_host, db_port, db_username, db_password, db_database, jwt_secret }
    }
}

/// The unguarded root route: a fixed greeting wrapped in the envelope.
pub fn index() -> (r: controllers::Response<String>)
    ensures
        r matches Ok(s) && s.0.0.code == 200 && s.0.1@ == "Hello World"@,
{
    Ok(controllers::SuccessResponse((
        controllers::Status { code: 200 },
        "Hello World".to_string(),
    )))
}

} // verus!
