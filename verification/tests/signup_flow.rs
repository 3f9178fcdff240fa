//! End-to-end exercises of the signup flow against the in-memory store.

use registration::errors::{AppError, DbError};
use registration::models::{AppConfig, SignupRequest};
use registration::orchestrator::{signup_begin, signup_begin_now, signup_finish};
use registration::store::UserStore;

fn config() -> AppConfig {
    AppConfig {
        client_url: String::from("http://localhost:3000"),
        email_from: String::from("noreply@example.com"),
    }
}

fn request(email: &str, password: &str) -> SignupRequest {
    SignupRequest { email: String::from(email), password: String::from(password) }
}

#[test]
fn signup_success_creates_one_user_and_one_token() {
    let mut store = UserStore::new();
    let req = request("a@example.com", "Abcd1234");
    let pending = signup_begin(&store, &config(), &req, "tok-0001", 1_000).unwrap();

    assert_eq!(pending.email, "a@example.com");
    assert_eq!(pending.token, "tok-0001");
    assert_eq!(pending.expires_at, 1_000 + 86_400);
    assert_eq!(pending.message.to, "a@example.com");
    assert_eq!(pending.message.from, "noreply@example.com");
    assert_eq!(pending.message.subject, "Welcome!");
    assert!(pending.message.body.contains("/signup/verify?token=tok-0001"));

    let id = signup_finish(&mut store, pending, Ok(())).unwrap();
    assert_eq!(id.0, 1);
    assert_eq!(store.count_users_with_email("a@example.com"), 1);
    assert_eq!(store.users.len(), 1);
    assert_eq!(store.tokens.len(), 1);
    assert_eq!(store.tokens[0].user_id, id);
    assert_eq!(store.tokens[0].token, "tok-0001");
    assert_eq!(store.tokens[0].expires_at, 1_000 + 86_400);
    assert!(!store.users[0].email_verified);
    assert_ne!(store.users[0].password, "Abcd1234");
}

#[test]
fn signup_mail_failure_rolls_back() {
    let mut store = UserStore::new();
    let req = request("a@example.com", "Abcd1234");
    let pending = signup_begin(&store, &config(), &req, "tok-0001", 1_000).unwrap();

    let r = signup_finish(&mut store, pending, Err(String::from("connection refused")));
    match r {
        Err(AppError::Internal(e)) => assert_eq!(e.message, "connection refused"),
        other => panic!("expected an internal error, got {:?}", other),
    }
    assert_eq!(store.count_users_with_email("a@example.com"), 0);
    assert_eq!(store.users.len(), 0);
    assert_eq!(store.tokens.len(), 0);
}

#[test]
fn signup_duplicate_email_is_conflict() {
    let mut store = UserStore::new();
    let req = request("a@example.com", "Abcd1234");
    let pending = signup_begin(&store, &config(), &req, "tok-0001", 1_000).unwrap();
    signup_finish(&mut store, pending, Ok(())).unwrap();

    let again = request("a@example.com", "Efgh5678");
    let r = signup_begin(&store, &config(), &again, "tok-0002", 2_000);
    match r {
        Err(AppError::DatabaseQuery(DbError::UniqueViolation(_))) => (),
        other => panic!("expected the duplicate-account error, got {:?}", other),
    }
    assert_eq!(store.count_users_with_email("a@example.com"), 1);
    assert_eq!(store.users.len(), 1);
    assert_eq!(store.tokens.len(), 1);
}

#[test]
fn signup_weak_password_fails_before_any_side_effect() {
    let store = UserStore::new();
    let req = request("a@example.com", "weak");
    let r = signup_begin(&store, &config(), &req, "tok-0001", 1_000);
    match r {
        Err(AppError::Validation(v)) => {
            assert_eq!(v.errors.len(), 1);
            assert_eq!(v.errors[0].code, "password");
            assert_eq!(v.errors[0].message, "Invalid password");
        },
        other => panic!("expected a validation error, got {:?}", other),
    }
    assert_eq!(store.users.len(), 0);
    assert_eq!(store.tokens.len(), 0);
}

#[test]
fn signup_bad_email_and_bad_password_report_both_fields() {
    let store = UserStore::new();
    let req = request("not-an-address", "weak");
    match signup_begin(&store, &config(), &req, "tok-0001", 1_000) {
        Err(AppError::Validation(v)) => {
            assert_eq!(v.errors.len(), 2);
            assert_eq!(v.errors[0].code, "email");
            assert_eq!(v.errors[1].code, "password");
        },
        other => panic!("expected a validation error, got {:?}", other),
    }
}

#[test]
fn signup_token_collision_is_internal_and_writes_nothing() {
    let mut store = UserStore::new();
    let req = request("a@example.com", "Abcd1234");
    let pending = signup_begin(&store, &config(), &req, "tok-0001", 1_000).unwrap();
    signup_finish(&mut store, pending, Ok(())).unwrap();

    let second = request("b@example.com", "Abcd1234");
    match signup_begin(&store, &config(), &second, "tok-0001", 2_000) {
        Err(AppError::Internal(_)) => (),
        other => panic!("expected an internal error, got {:?}", other),
    }
    assert_eq!(store.users.len(), 1);
}

#[test]
fn signup_at_the_current_time_expires_a_day_ahead() {
    let mut store = UserStore::new();
    let req = request("a@example.com", "Abcd1234");
    let pending = signup_begin_now(&store, &config(), &req, "tok-0001").unwrap();
    // The wall clock stands well past the epoch, so the staged expiry —
    // one day past the instant the clock answered — does too.
    assert!(pending.expires_at > 1_600_000_000 + 86_400);
    signup_finish(&mut store, pending, Ok(())).unwrap();
    assert_eq!(store.count_users_with_email("a@example.com"), 1);
}

#[test]
fn signup_assigns_increasing_ids() {
    let mut store = UserStore::new();
    let first = signup_begin(&store, &config(), &request("a@example.com", "Abcd1234"), "tok-0001", 0)
        .unwrap();
    let id_a = signup_finish(&mut store, first, Ok(())).unwrap();
    let second =
        signup_begin(&store, &config(), &request("b@example.com", "Abcd1234"), "tok-0002", 0)
            .unwrap();
    let id_b = signup_finish(&mut store, second, Ok(())).unwrap();
    assert_eq!(id_a.0, 1);
    assert_eq!(id_b.0, 2);
    assert_eq!(store.count_users_with_email("a@example.com"), 1);
    assert_eq!(store.count_users_with_email("b@example.com"), 1);
}
