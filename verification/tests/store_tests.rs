//! The user store's own operations: the contract the flow relies on from
//! its persistence layer, exercised directly.

use registration::errors::{AppError, DbError};
use registration::models::UserId;
use registration::store::UserStore;

#[test]
fn a_fresh_store_is_empty() {
    let store = UserStore::new();
    assert_eq!(store.users.len(), 0);
    assert_eq!(store.tokens.len(), 0);
    assert!(!store.email_taken("a@example.com"));
    assert_eq!(store.count_users_with_email("a@example.com"), 0);
}

#[test]
fn insert_user_assigns_the_next_id() {
    let mut store = UserStore::new();
    let id = store.insert_user("a@example.com", "digest-a").unwrap();
    assert_eq!(id, UserId(1));
    assert!(store.email_taken("a@example.com"));
    assert!(!store.users[0].email_verified);
    let id = store.insert_user("b@example.com", "digest-b").unwrap();
    assert_eq!(id, UserId(2));
}

#[test]
fn insert_user_refuses_a_taken_email() {
    let mut store = UserStore::new();
    store.insert_user("a@example.com", "digest-a").unwrap();
    match store.insert_user("a@example.com", "digest-b") {
        Err(AppError::DatabaseQuery(DbError::UniqueViolation(_))) => (),
        other => panic!("expected the unique-key violation, got {:?}", other),
    }
    assert_eq!(store.count_users_with_email("a@example.com"), 1);
}

#[test]
fn find_user_by_email_answers_the_stored_record() {
    let mut store = UserStore::new();
    let id = store.insert_user("a@example.com", "digest-a").unwrap();
    let user = store.find_user_by_email("a@example.com").unwrap();
    assert_eq!(user.id, id);
    assert_eq!(user.email, "a@example.com");
    assert_eq!(user.password, "digest-a");
    assert!(store.find_user_by_email("b@example.com").is_none());
}

#[test]
fn tokens_are_honored_only_unexpired() {
    let mut store = UserStore::new();
    let id = store.insert_user("a@example.com", "digest-a").unwrap();
    store.insert_token(id, "tok-0001", 100).unwrap();
    assert!(store.token_taken("tok-0001"));
    assert_eq!(store.find_valid_token("tok-0001", 99), Some(id));
    assert_eq!(store.find_valid_token("tok-0001", 100), None);
    assert_eq!(store.find_valid_token("tok-0001", 101), None);
    assert_eq!(store.find_valid_token("tok-9999", 0), None);
}

#[test]
fn insert_token_refuses_a_taken_value() {
    let mut store = UserStore::new();
    let id = store.insert_user("a@example.com", "digest-a").unwrap();
    store.insert_token(id, "tok-0001", 100).unwrap();
    match store.insert_token(id, "tok-0001", 200) {
        Err(AppError::Internal(_)) => (),
        other => panic!("expected an internal error, got {:?}", other),
    }
    assert_eq!(store.tokens.len(), 1);
}

#[test]
fn mark_verified_flips_exactly_the_one_user() {
    let mut store = UserStore::new();
    let id_a = store.insert_user("a@example.com", "digest-a").unwrap();
    let id_b = store.insert_user("b@example.com", "digest-b").unwrap();
    let refreshed = store.mark_verified(id_a).unwrap();
    assert_eq!(refreshed.id, id_a);
    assert_eq!(refreshed.email, "a@example.com");
    assert!(store.is_user_verified(id_a));
    assert!(!store.is_user_verified(id_b));
}

#[test]
fn mark_verified_refuses_an_unknown_user() {
    let mut store = UserStore::new();
    match store.mark_verified(UserId(41)) {
        Err(AppError::DatabaseQuery(DbError::Other(_))) => (),
        other => panic!("expected a storage failure, got {:?}", other),
    }
}

#[test]
fn find_user_by_id_answers_the_stored_record() {
    let mut store = UserStore::new();
    let id = store.insert_user("a@example.com", "digest-a").unwrap();
    let user = store.find_user_by_id(id).unwrap();
    assert_eq!(user.email, "a@example.com");
    assert!(store.find_user_by_id(UserId(41)).is_none());
}
