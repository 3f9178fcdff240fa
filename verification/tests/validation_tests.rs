//! The password policy, the email check, and the error taxonomy's mapping
//! to status codes and response bodies.

use registration::errors::{
    APILayerError, AppError, DbError, ValidationError, ValidationErrors,
};
use registration::models::SignupRequest;
use registration::validation::{validate_password, validate_signup};

#[test]
fn password_policy_accepts_the_reference_password() {
    assert!(validate_password("Abcd1234").is_ok());
}

#[test]
fn password_policy_rejects_breaches() {
    // Too short.
    assert!(validate_password("Ab1").is_err());
    // No uppercase.
    assert!(validate_password("abcd1234").is_err());
    // No digit.
    assert!(validate_password("Abcdefgh").is_err());
    // Whitespace.
    assert!(validate_password("Abcd 1234").is_err());
    assert!(validate_password("Abcd\t1234").is_err());
    // Exactly eight acceptable characters pass.
    assert!(validate_password("Abcdef12").is_ok());
    // Seven do not.
    assert!(validate_password("Abcde12").is_err());
}

#[test]
fn password_error_names_the_field() {
    let e = validate_password("weak").unwrap_err();
    assert_eq!(e.code, "password");
    assert_eq!(e.message, "Invalid password");
}

fn request(email: &str, password: &str) -> SignupRequest {
    SignupRequest { email: String::from(email), password: String::from(password) }
}

#[test]
fn signup_validation_accepts_a_well_formed_request() {
    assert!(validate_signup(&request("a@example.com", "Abcd1234")).is_ok());
}

#[test]
fn signup_validation_rejects_malformed_emails() {
    for email in ["", "no-at-sign", "a@", "@example.com", "a b@example.com"] {
        let r = validate_signup(&request(email, "Abcd1234"));
        match r {
            Err(AppError::Validation(v)) => {
                assert_eq!(v.errors.len(), 1, "email {:?}", email);
                assert_eq!(v.errors[0].code, "email");
                assert_eq!(v.errors[0].message, "Invalid email address");
            },
            other => panic!("expected a validation error for {:?}, got {:?}", email, other),
        }
    }
}

#[test]
fn status_codes_follow_the_kind() {
    let internal = AppError::Internal(APILayerError::new(String::from("boom")));
    let unauthorized = AppError::Unauthorized(APILayerError::new(String::from("no")));
    let deser = AppError::Deserialization(APILayerError::new(String::from("bad json")));
    let validation = AppError::Validation(ValidationErrors { errors: vec![] });
    let db = AppError::DatabaseQuery(DbError::Other(String::from("down")));
    assert_eq!(internal.status_code(), 500);
    assert_eq!(unauthorized.status_code(), 401);
    assert_eq!(deser.status_code(), 400);
    assert_eq!(validation.status_code(), 400);
    assert_eq!(db.status_code(), 500);
}

#[test]
fn responses_carry_the_machine_readable_code() {
    let duplicate =
        AppError::DatabaseQuery(DbError::UniqueViolation(String::from("duplicate key")));
    let (status, body) = duplicate.error_response();
    assert_eq!(status, 409);
    assert_eq!(body.code, "DUPLICATE_ERROR");
    assert_eq!(body.message, "duplicate key");
    assert!(body.details.is_empty());

    let db = AppError::DatabaseQuery(DbError::Other(String::from("down")));
    let (status, body) = db.error_response();
    assert_eq!(status, 500);
    assert_eq!(body.code, "INTERNAL_ERROR");
    assert_eq!(body.message, "Internal server error");

    let unauthorized = AppError::Unauthorized(APILayerError::new(String::from("no")));
    let (status, body) = unauthorized.error_response();
    assert_eq!(status, 401);
    assert_eq!(body.code, "UNAUTHORIZED_ERROR");
    assert_eq!(body.message, "no");

    let internal = AppError::Internal(APILayerError::new(String::from("boom")));
    let (status, body) = internal.error_response();
    assert_eq!(status, 500);
    assert_eq!(body.code, "INTERNAL_ERROR");
    assert_eq!(body.message, "Internal server error");

    let deser = AppError::Deserialization(APILayerError::new(String::from("bad json")));
    let (status, body) = deser.error_response();
    assert_eq!(status, 400);
    assert_eq!(body.code, "DESERIALIZATION_ERROR");
    assert_eq!(body.message, "bad json");
}

#[test]
fn validation_response_carries_the_field_errors() {
    let validation = AppError::Validation(ValidationErrors {
        errors: vec![ValidationError {
            code: String::from("password"),
            message: String::from("Invalid password"),
        }],
    });
    let (status, body) = validation.error_response();
    assert_eq!(status, 400);
    assert_eq!(body.code, "VALIDATION_ERROR");
    assert_eq!(body.message, "Validation error");
    assert_eq!(body.details.len(), 1);
    assert_eq!(body.details[0].code, "password");
}

#[test]
fn internal_detail_stays_out_of_the_response_body() {
    // The raw text of a storage or internal failure — database, transport
    // or hashing detail — belongs in the server log, never in the body.
    let raw = "connection to server at \"db\" failed: password authentication failed";
    let db = AppError::DatabaseQuery(DbError::Other(String::from(raw)));
    let (_, body) = db.error_response();
    assert!(!body.message.contains("password"));
    assert!(!body.message.contains(raw));
    assert!(db.describe().contains(raw));

    let internal = AppError::Internal(APILayerError::new(String::from(raw)));
    let (_, body) = internal.error_response();
    assert!(!body.message.contains(raw));
    assert!(internal.describe().contains(raw));
}

#[test]
fn log_lines_name_the_kind() {
    let internal = AppError::Internal(APILayerError::new(String::from("boom")));
    assert_eq!(internal.describe(), "Internal error: boom");
    let validation = AppError::Validation(ValidationErrors {
        errors: vec![
            ValidationError { code: String::from("email"), message: String::from("m") },
            ValidationError { code: String::from("password"), message: String::from("m") },
        ],
    });
    assert_eq!(validation.describe(), "Validation error: email, password");
}
