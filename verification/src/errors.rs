//! Error taxonomy of the registration core.
//!
//! A closed set of error kinds: validation, duplicate account (a unique-key
//! violation in the user store), unauthorized (unknown or expired token),
//! and internal failures. Each kind maps to an HTTP status code and to a
//! structured response body.

use vstd::prelude::*;

verus! {

/// An opaque error carrying a human-readable message.
#[derive(Debug)]
pub struct APILayerError {
    pub message: String,
}

impl APILayerError {
    pub fn new(message: String) -> (r: Self)
        ensures
            r.message@ == message@,
    {
        Self { message }
    }
}

/// One failed check on one input field.
#[derive(Debug)]
pub struct ValidationError {
    /// The field the check belongs to.
    pub code: String,
    /// What the check requires of the field.
    pub message: String,
}

/// All failed checks of one request, in field order.
#[derive(Debug)]
pub struct ValidationErrors {
    pub errors: Vec<ValidationError>,
}

/// A failure reported by the user store.
///
/// A unique-key violation on the email column is kept apart from every
/// other storage failure: callers must be able to tell "account already
/// exists" from "store broken".
#[derive(Debug)]
pub enum DbError {
    UniqueViolation(String),
    Other(String),
}

/// Every failure the registration core can surface.
#[derive(Debug)]
pub enum AppError {
    Deserialization(APILayerError),
    Validation(ValidationErrors),
    DatabaseQuery(DbError),
    Unauthorized(APILayerError),
    Internal(APILayerError),
}

/// The structured body of an error response: a machine-readable code, a
/// human message, and the failed field checks when validation failed.
#[derive(Debug)]
pub struct ErrorResponse {
    pub code: String,
    pub message: String,
    pub details: Vec<ValidationError>,
}

/// Copies a list of field errors, element for element.
fn clone_errors(v: &Vec<ValidationError>) -> (r: Vec<ValidationError>)
    ensures
        r@ =~= v@,
{
    let mut r: Vec<ValidationError> = Vec::new();
    let mut i: usize = 0;
    while i < v.len()
        invariant
            i <= v.len(),
            r@ =~= v@.take(i as int),
        decreases v.len() - i,
    {
        let e = ValidationError { code: v[i].code.clone(), message: v[i].message.clone() };
        assert(e == v@[i as int]);
        r.push(e);
        assert(r@ =~= v@.take(i as int + 1));
        i = i + 1;
    }
    assert(v@.take(v.len() as int) =~= v@);
    r
}

/// The field codes of `s`, joined by a comma and a space.
pub open spec fn spec_joined_codes(s: Seq<ValidationError>) -> Seq<char>
    decreases s.len(),
{
    if s.len() == 0 {
        Seq::empty()
    } else if s.len() == 1 {
        s[0].code@
    } else {
        spec_joined_codes(s.drop_last()) + ", "@ + s.last().code@
    }
}

/// Joins the field codes of `v` into one line, for log text.
fn joined_codes(v: &Vec<ValidationError>) -> (r: String)
    ensures
        r@ == spec_joined_codes(v@),
{
    let mut r = String::new();
    let mut i: usize = 0;
    while i < v.len()
        invariant
            i <= v.len(),
            r@ == spec_joined_codes(v@.take(i as int)),
        decreases v.len() - i,
    {
        if i > 0 {
            r.append(", ");
        }
        r.append(v[i].code.as_str());
        proof {
            assert(v@.take(i as int + 1).drop_last() =~= v@.take(i as int));
            assert(v@.take(i as int + 1).last() == v@[i as int]);
        }
        i = i + 1;
    }
    proof {
        assert(v@.take(v@.len() as int) =~= v@);
    }
    r
}

impl AppError {
    /// The status code of the kind alone, before the response body is built.
    pub open spec fn spec_status_code(&self) -> u16 {
        match self {
            AppError::Validation(_) => 400,
            AppError::Deserialization(_) => 400,
            AppError::DatabaseQuery(_) => 500,
            AppError::Unauthorized(_) => 401,
            AppError::Internal(_) => 500,
        }
    }

    pub fn status_code(&self) -> (code: u16)
        ensures
            code == self.spec_status_code(),
    {
        match self {
            AppError::Validation(_) => 400,
            AppError::Deserialization(_) => 400,
            AppError::DatabaseQuery(_) => 500,
            AppError::Unauthorized(_) => 401,
            AppError::Internal(_) => 500,
        }
    }

    /// The status the response itself carries. It refines `spec_status_code`:
    /// a unique-key violation answers 409, so a caller can tell "already
    /// registered" from "server broken".
    pub open spec fn spec_response_status(&self) -> u16 {
        match self {
            AppError::Validation(_) => 400,
            AppError::Deserialization(_) => 400,
            AppError::DatabaseQuery(DbError::UniqueViolation(_)) => 409,
            AppError::DatabaseQuery(DbError::Other(_)) => 500,
            AppError::Unauthorized(_) => 401,
            AppError::Internal(_) => 500,
        }
    }

    /// The machine-readable code of the response body.
    pub open spec fn spec_response_code(&self) -> Seq<char> {
        match self {
            AppError::Deserialization(_) => "DESERIALIZATION_ERROR"@,
            AppError::Validation(_) => "VALIDATION_ERROR"@,
            AppError::DatabaseQuery(DbError::UniqueViolation(_)) => "DUPLICATE_ERROR"@,
            AppError::DatabaseQuery(DbError::Other(_)) => "INTERNAL_ERROR"@,
            AppError::Unauthorized(_) => "UNAUTHORIZED_ERROR"@,
            AppError::Internal(_) => "INTERNAL_ERROR"@,
        }
    }

    /// The human message of the response body. Validation answers a fixed
    /// phrase (the detail lives in `details`). Internal failures and
    /// storage failures other than the duplicate answer a fixed opaque
    /// phrase: what sits in their own message — transport, hashing or
    /// database text — is server-side detail that must not reach the
    /// client; `describe` keeps it for the log. The duplicate-account and
    /// unauthorized messages are client-level and carry through.
    pub open spec fn spec_response_message(&self) -> Seq<char> {
        match self {
            AppError::Deserialization(e) => e.message@,
            AppError::Validation(_) => "Validation error"@,
            AppError::DatabaseQuery(DbError::UniqueViolation(m)) => m@,
            AppError::DatabaseQuery(DbError::Other(_)) => "Internal server error"@,
            AppError::Unauthorized(e) => e.message@,
            AppError::Internal(_) => "Internal server error"@,
        }
    }

    /// The field checks reported back: only validation carries any.
    pub open spec fn spec_response_details(&self) -> Seq<ValidationError> {
        match self {
            AppError::Validation(v) => v.errors@,
            _ => Seq::empty(),
        }
    }

    /// Builds the response a caller sees: the status and the structured body.
    /// Internal detail never leaks: an internal or storage failure answers
    /// an opaque body, and its own message stays server-side, in the log
    /// line `describe` builds.
    pub fn error_response(&self) -> (r: (u16, ErrorResponse))
        ensures
            r.0 == self.spec_response_status(),
            r.1.code@ == self.spec_response_code(),
            r.1.message@ == self.spec_response_message(),
            r.1.details@ =~= self.spec_response_details(),
    {
        match self {
            AppError::Deserialization(e) => (
                400,
                ErrorResponse {
                    code: String::from_str("DESERIALIZATION_ERROR"),
                    message: e.message.clone(),
                    details: Vec::new(),
                },
            ),
            AppError::Validation(v) => (
                400,
                ErrorResponse {
                    code: String::from_str("VALIDATION_ERROR"),
                    message: String::from_str("Validation error"),
                    details: clone_errors(&v.errors),
                },
            ),
            AppError::DatabaseQuery(DbError::UniqueViolation(m)) => (
                409,
                ErrorResponse {
                    code: String::from_str("DUPLICATE_ERROR"),
                    message: m.clone(),
                    details: Vec::new(),
                },
            ),
            AppError::DatabaseQuery(DbError::Other(_)) => (
                500,
                ErrorResponse {
                    code: String::from_str("INTERNAL_ERROR"),
                    message: String::from_str("Internal server error"),
                    details: Vec::new(),
                },
            ),
            AppError::Unauthorized(e) => (
                401,
                ErrorResponse {
                    code: String::from_str("UNAUTHORIZED_ERROR"),
                    message: e.message.clone(),
                    details: Vec::new(),
                },
            ),
            AppError::Internal(_) => (
                500,
                ErrorResponse {
                    code: String::from_str("INTERNAL_ERROR"),
                    message: String::from_str("Internal server error"),
                    details: Vec::new(),
                },
            ),
        }
    }

    /// The log line of the error: the kind, then its message; a validation
    /// error names the fields that failed.
    pub open spec fn spec_describe(&self) -> Seq<char> {
        match self {
            AppError::Deserialization(e) => "Deserialization error: "@ + e.message@,
            AppError::Validation(v) => "Validation error: "@ + spec_joined_codes(v.errors@),
            AppError::DatabaseQuery(DbError::UniqueViolation(m)) => "Database query error: "@
                + m@,
            AppError::DatabaseQuery(DbError::Other(m)) => "Database query error: "@ + m@,
            AppError::Unauthorized(e) => "Unauthorized error: "@ + e.message@,
            AppError::Internal(e) => "Internal error: "@ + e.message@,
        }
    }

    pub fn describe(&self) -> (r: String)
        ensures
            r@ == self.spec_describe(),
    {
        match self {
            AppError::Deserialization(e) => {
                String::from_str("Deserialization error: ").concat(e.message.as_str())
            },
            AppError::Validation(v) => {
                let codes = joined_codes(&v.errors);
                String::from_str("Validation error: ").concat(codes.as_str())
            },
            AppError::DatabaseQuery(DbError::UniqueViolation(m)) => {
                String::from_str("Database query error: ").concat(m.as_str())
            },
            AppError::DatabaseQuery(DbError::Other(m)) => {
                String::from_str("Database query error: ").concat(m.as_str())
            },
            AppError::Unauthorized(e) => {
                String::from_str("Unauthorized error: ").concat(e.message.as_str())
            },
            AppError::Internal(e) => {
                String::from_str("Internal error: ").concat(e.message.as_str())
            },
        }
    }
}

} // verus!
