use bookstore::controllers::auth::{handle_me, sigin_in, sigin_up, ReqSignIn, ReqSignUp};
use bookstore::auth::RequestContext;
use bookstore::service::{AuthError, CredentialService};
use bookstore::store::UserStore;
use bookstore::token::TokenCodec;

const NOW: u64 = 1_700_000_000;

fn service_with(secret: &str) -> CredentialService {
    CredentialService::new(TokenCodec::new(secret.to_string()))
}

fn sign_up_req(email: &str, password: &str) -> ReqSignUp {
    ReqSignUp {
        email: email.to_string(),
        password: password.to_string(),
        firstname: None,
        lastname: None,
    }
}

fn sign_in_req(email: &str, password: &str) -> ReqSignIn {
    ReqSignIn { email: email.to_string(), password: password.to_string() }
}

#[test]
fn scenario_full_flow() {
    let mut store = UserStore::new();
    let service = service_with("scenario-secret");

    let created = sigin_up(&mut store, &service, &sign_up_req("a@x.com", "secret123"));
    match created {
        Ok(s) => {
            assert_eq!(s.0.0.code, 201);
            assert_eq!(s.0.1, "Account created!");
        }
        Err(_) => panic!("fresh sign-up must succeed"),
    }

    let taken = sigin_up(&mut store, &service, &sign_up_req("a@x.com", "secret123"));
    match taken {
        Ok(_) => panic!("duplicate sign-up must be rejected"),
        Err(e) => {
            assert_eq!(e.0.0.code, 422);
            assert_eq!(e.0.1, "An account exists with that email address.");
        }
    }

    let wrong = sigin_in(&store, &service, &sign_in_req("a@x.com", "wrong"), NOW);
    match wrong {
        Ok(_) => panic!("wrong password must be rejected"),
        Err(e) => {
            assert_eq!(e.0.0.code, 401);
            assert_eq!(e.0.1, "Invalid credentials");
        }
    }

    let token = match sigin_in(&store, &service, &sign_in_req("a@x.com", "secret123"), NOW) {
        Ok(s) => {
            assert_eq!(s.0.0.code, 200);
            assert!(!s.0.1.token.is_empty());
            s.0.1.token
        }
        Err(_) => panic!("correct password must sign in"),
    };

    let req = RequestContext { token: Some(token) };
    match handle_me(&store, &service, &req, NOW + 1) {
        Ok(s) => {
            assert_eq!(s.0.0.code, 200);
            assert_eq!(s.0.1.email, "a@x.com");
        }
        Err(_) => panic!("a fresh token must reach the profile"),
    }
}

#[test]
fn sign_up_then_sign_in_subject_matches() {
    let mut store = UserStore::new();
    let service = service_with("roundtrip-secret");

    let id = service
        .sign_up(
            &mut store,
            "pair@x.com".to_string(),
            &"hunter2pass".to_string(),
            Some("Pat".to_string()),
            Some("Smith".to_string()),
        )
        .expect("fresh sign-up succeeds");

    let token = service
        .sign_in(&store, &"pair@x.com".to_string(), &"hunter2pass".to_string(), NOW)
        .expect("sign-in after sign-up succeeds");

    let claims = service.codec.decode(&token, NOW).expect("fresh token is valid");
    assert_eq!(claims.sub, id);
    assert_eq!(claims.role, "user");
    assert_eq!(claims.exp, NOW + bookstore::token::TOKEN_TTL_SECS);
}

#[test]
fn email_taken_means_no_write() {
    let mut store = UserStore::new();
    let service = service_with("taken-secret");

    service
        .sign_up(&mut store, "dup@x.com".to_string(), &"firstpass".to_string(), None, None)
        .expect("fresh sign-up succeeds");
    assert_eq!(store.len(), 1);

    let second = service.sign_up(
        &mut store,
        "dup@x.com".to_string(),
        &"otherpass".to_string(),
        None,
        None,
    );
    assert_eq!(second, Err(AuthError::EmailTaken));
    assert_eq!(store.len(), 1);
}

#[test]
fn rejections_are_indistinguishable() {
    let mut store = UserStore::new();
    let service = service_with("oracle-secret");

    service
        .sign_up(&mut store, "known@x.com".to_string(), &"rightpass".to_string(), None, None)
        .expect("fresh sign-up succeeds");

    let wrong_password =
        service.sign_in(&store, &"known@x.com".to_string(), &"wrongpass".to_string(), NOW);
    let unknown_email =
        service.sign_in(&store, &"ghost@x.com".to_string(), &"whatever".to_string(), NOW);

    assert_eq!(wrong_password, Err(AuthError::InvalidCredentials));
    assert_eq!(unknown_email, Err(AuthError::InvalidCredentials));
    assert_eq!(wrong_password, unknown_email);

    let rendered_wrong = sigin_in(&store, &service, &sign_in_req("known@x.com", "wrongpass"), NOW)
        .err()
        .expect("rejected");
    let rendered_unknown = sigin_in(&store, &service, &sign_in_req("ghost@x.com", "whatever"), NOW)
        .err()
        .expect("rejected");
    assert_eq!(rendered_wrong.0.0, rendered_unknown.0.0);
    assert_eq!(rendered_wrong.0.1, rendered_unknown.0.1);
}

#[test]
fn unparseable_stored_hash_reads_as_rejection() {
    let mut store = UserStore::new();
    let service = service_with("mangled-secret");

    store
        .insert(
            "broken@x.com".to_string(),
            "not-a-bcrypt-hash".to_string(),
            None,
            None,
        )
        .expect("insert succeeds");

    let r = service.sign_in(&store, &"broken@x.com".to_string(), &"anything".to_string(), NOW);
    assert_eq!(r, Err(AuthError::InvalidCredentials));
}

#[test]
fn ids_are_assigned_in_order() {
    let mut store = UserStore::new();
    let service = service_with("ids-secret");
    let first = service
        .sign_up(&mut store, "one@x.com".to_string(), &"password1".to_string(), None, None)
        .expect("fresh sign-up succeeds");
    let second = service
        .sign_up(&mut store, "two@x.com".to_string(), &"password2".to_string(), None, None)
        .expect("fresh sign-up succeeds");
    assert_eq!(first, 1);
    assert_eq!(second, 2);
    assert_eq!(store.len(), 2);
}

#[test]
fn profile_reflects_stored_names() {
    let mut store = UserStore::new();
    let service = service_with("profile-secret");

    let id = service
        .sign_up(
            &mut store,
            "named@x.com".to_string(),
            &"apassword".to_string(),
            Some("Ada".to_string()),
            None,
        )
        .expect("fresh sign-up succeeds");

    let rec = service.get_profile(&store, id).expect("record exists");
    assert_eq!(rec.id, id);
    assert_eq!(rec.email, "named@x.com");
    assert_eq!(rec.firstname, Some("Ada".to_string()));
    assert_eq!(rec.lastname, None);
    assert_ne!(rec.password, "apassword", "the plaintext must never be stored");

    let missing = service.get_profile(&store, id + 1);
    assert_eq!(missing.err(), Some(AuthError::NotFound));
}
