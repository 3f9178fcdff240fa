//! End-to-end exercises of the verification flow, expiry included.

use registration::errors::AppError;
use registration::models::{AppConfig, SignupRequest, SignupVerifyQuery};
use registration::orchestrator::{signup_begin, signup_finish, verify_begin, verify_finish};
use registration::store::UserStore;

fn config() -> AppConfig {
    AppConfig {
        client_url: String::from("http://localhost:3000"),
        email_from: String::from("noreply@example.com"),
    }
}

fn signed_up_store(token: &str, now: i64) -> UserStore {
    let mut store = UserStore::new();
    let req = SignupRequest {
        email: String::from("a@example.com"),
        password: String::from("Abcd1234"),
    };
    let pending = signup_begin(&store, &config(), &req, token, now).unwrap();
    signup_finish(&mut store, pending, Ok(())).unwrap();
    store
}

fn query(token: &str) -> SignupVerifyQuery {
    SignupVerifyQuery { token: String::from(token) }
}

#[test]
fn verify_valid_token_marks_user_verified() {
    let mut store = signed_up_store("tok-0001", 1_000);
    let id = store.users[0].id;
    assert!(!store.is_user_verified(id));

    let pending = verify_begin(&store, &config(), &query("tok-0001"), 2_000).unwrap();
    assert_eq!(pending.user_id, id);
    assert_eq!(pending.message.to, "a@example.com");
    assert_eq!(pending.message.subject, "Your registration has been completed.!");
    assert!(pending.message.body.contains("/signin"));

    verify_finish(&mut store, pending, Ok(())).unwrap();
    assert!(store.is_user_verified(id));
    assert_eq!(store.users.len(), 1);
    assert_eq!(store.tokens.len(), 1);
}

#[test]
fn verify_twice_is_idempotent_on_state() {
    let mut store = signed_up_store("tok-0001", 1_000);
    let id = store.users[0].id;

    let first = verify_begin(&store, &config(), &query("tok-0001"), 2_000).unwrap();
    verify_finish(&mut store, first, Ok(())).unwrap();
    assert!(store.is_user_verified(id));

    let second = verify_begin(&store, &config(), &query("tok-0001"), 3_000).unwrap();
    assert_eq!(second.user_id, id);
    verify_finish(&mut store, second, Ok(())).unwrap();
    assert!(store.is_user_verified(id));
    assert_eq!(store.users.len(), 1);
    assert_eq!(store.tokens.len(), 1);
    assert_eq!(store.users[0].email, "a@example.com");
}

#[test]
fn verify_unknown_token_is_unauthorized() {
    let mut store = signed_up_store("tok-0001", 1_000);
    let id = store.users[0].id;
    match verify_begin(&store, &config(), &query("tok-9999"), 2_000) {
        Err(AppError::Unauthorized(e)) => assert_eq!(e.message, "Token has expired."),
        other => panic!("expected unauthorized, got {:?}", other),
    }
    assert!(!store.is_user_verified(id));
}

#[test]
fn verify_expired_token_is_unauthorized() {
    // Signed up at 0: the token expires at 86_400; one second past it the
    // lookup must refuse, and the account must stay unverified.
    let mut store = signed_up_store("tok-0001", 0);
    let id = store.users[0].id;
    match verify_begin(&store, &config(), &query("tok-0001"), 86_401) {
        Err(AppError::Unauthorized(_)) => (),
        other => panic!("expected unauthorized, got {:?}", other),
    }
    assert!(!store.is_user_verified(id));
}

#[test]
fn verify_expiry_boundary_is_strict() {
    let store = signed_up_store("tok-0001", 0);
    // Exactly at the expiry instant the token is no longer valid ...
    assert!(verify_begin(&store, &config(), &query("tok-0001"), 86_400).is_err());
    // ... one second before it still is.
    assert!(verify_begin(&store, &config(), &query("tok-0001"), 86_399).is_ok());
}

#[test]
fn verify_empty_token_is_validation_error() {
    let store = signed_up_store("tok-0001", 1_000);
    match verify_begin(&store, &config(), &query(""), 2_000) {
        Err(AppError::Validation(v)) => {
            assert_eq!(v.errors.len(), 1);
            assert_eq!(v.errors[0].code, "token");
            assert_eq!(v.errors[0].message, "token is required");
        },
        other => panic!("expected a validation error, got {:?}", other),
    }
}

#[test]
fn verify_mail_failure_rolls_the_flip_back() {
    let mut store = signed_up_store("tok-0001", 1_000);
    let id = store.users[0].id;
    let pending = verify_begin(&store, &config(), &query("tok-0001"), 2_000).unwrap();
    match verify_finish(&mut store, pending, Err(String::from("mailbox unavailable"))) {
        Err(AppError::Internal(e)) => assert_eq!(e.message, "mailbox unavailable"),
        other => panic!("expected an internal error, got {:?}", other),
    }
    assert!(!store.is_user_verified(id));
    // The token survives the failed attempt: a retry can still succeed.
    let retry = verify_begin(&store, &config(), &query("tok-0001"), 2_500).unwrap();
    let mut store2 = store;
    verify_finish(&mut store2, retry, Ok(())).unwrap();
    assert!(store2.is_user_verified(id));
}
