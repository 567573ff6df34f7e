use bookstore::auth::AuthenticatedUser;
use bookstore::controllers::{error_response, auth::me};
use bookstore::fairings::cors::{options, CORS};
use bookstore::service::{AuthError, CredentialService};
use bookstore::store::UserStore;
use bookstore::token::TokenCodec;
use bookstore::{index, AppConfig};

#[test]
fn index_greets() {
    let r = index().ok().expect("the root route always succeeds");
    assert_eq!(r.0.0.code, 200);
    assert_eq!(r.0.1, "Hello World");
}

#[test]
fn options_placeholder() {
    assert_eq!(options(), "hello rust");
}

#[test]
fn cors_headers_are_fixed() {
    let headers = CORS.response_headers();
    assert_eq!(
        headers,
        [
            ("Access-Control-Allow-Origin", "*"),
            ("Access-Control-Allow-Methods", "GET, POST, PUT, PATCH, DELETE, OPTIONS"),
            ("Access-Crontol-Allow-Headers", "*"),
            ("Access-Control-Allow-Credentials", "true"),
        ]
    );
}

#[test]
fn every_failure_kind_renders_its_status_and_message() {
    let cases = [
        (AuthError::InvalidCredentials, 401, "Invalid credentials"),
        (AuthError::EmailTaken, 422, "An account exists with that email address."),
        (AuthError::TokenAbsent, 401, "Token absent"),
        (AuthError::TokenInvalid, 401, "Invalid token"),
        (AuthError::NotFound, 404, "Cannot find a user with the specified ID."),
    ];
    for (kind, code, message) in cases {
        let r = error_response(kind);
        assert_eq!(r.0.0.code, code);
        assert_eq!(r.0.1, message);
    }
    let r = error_response(AuthError::StorageFailure("pool exhausted".to_string()));
    assert_eq!(r.0.0.code, 500);
    assert_eq!(r.0.1, "pool exhausted");
}

#[test]
fn me_without_record_is_not_found() {
    let store = UserStore::new();
    let service = CredentialService::new(TokenCodec::new("envelope-secret".to_string()));
    let user = AuthenticatedUser { id: 42 };
    let rejection = me(&store, &service, &user).err().expect("no record");
    assert_eq!(rejection.0.0.code, 404);
    assert_eq!(rejection.0.1, "Cannot find a user with the specified ID.");
}

#[test]
fn config_holds_its_values() {
    let c = AppConfig::new(
        "localhost".to_string(),
        "3306".to_string(),
        "bookstore".to_string(),
        "dbpass".to_string(),
        "bookstore".to_string(),
        "signing-secret".to_string(),
    );
    assert_eq!(c.db_host, "localhost");
    assert_eq!(c.db_port, "3306");
    assert_eq!(c.db_username, "bookstore");
    assert_eq!(c.db_password, "dbpass");
    assert_eq!(c.db_database, "bookstore");
    assert_eq!(c.jwt_secret, "signing-secret");
}
