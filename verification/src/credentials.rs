//! The credential hasher: one-way, salted password hashing and verification,
//! and the sign-in decision built on it.
//!
//! Hashing salts every call, so two digests of one plaintext differ; what a
//! digest and a plaintext settle between them is captured by `bcrypt_check`,
//! the named outcome of the deterministic verification.

use vstd::prelude::*;
use crate::errors::{APILayerError, AppError};
use crate::models::{User, UserId};

verus! {

/// The outcome of bcrypt's verification on a plaintext and a digest:
/// `Some(b)` when verification answers `b`, `None` when the digest cannot
/// be read as a bcrypt hash. It depends on the two arguments alone.
pub uninterp spec fn bcrypt_check(plaintext: Seq<char>, digest: Seq<char>) -> Option<bool>;

/// Relies on bcrypt::hash with its default cost: the digest is salted from
/// OS randomness, and bcrypt::verify answers true on exactly the plaintext
/// the digest was made from.
#[verifier::external_body]
fn bcrypt_hash(plaintext: &str) -> (r: Result<String, String>)
    ensures
        r matches Ok(h) ==> bcrypt_check(plaintext@, h@) == Some(true),
{
    bcrypt::hash(plaintext, bcrypt::DEFAULT_COST).map_err(|e| e.to_string())
}

/// Relies on bcrypt::verify: it reads the cost and salt out of the digest,
/// recomputes, and compares in constant time; its outcome is a function of
/// the plaintext and the digest alone.
#[verifier::external_body]
fn bcrypt_verify(plaintext: &str, digest: &str) -> (r: Result<bool, String>)
    ensures
        r matches Ok(b) ==> bcrypt_check(plaintext@, digest@) == Some(b),
        r is Err ==> bcrypt_check(plaintext@, digest@) is None,
{
    bcrypt::verify(plaintext, digest).map_err(|e| e.to_string())
}

/// Hashes a password for storage. A digest this returns verifies as true
/// against the password it was made from; hashing itself fails only on
/// resource exhaustion, surfaced as an internal error.
pub fn hash_password(plaintext: &str) -> (r: Result<String, AppError>)
    ensures
        r matches Ok(h) ==> bcrypt_check(plaintext@, h@) == Some(true),
        r matches Err(e) ==> e is Internal,
{
    match bcrypt_hash(plaintext) {
        Ok(h) => Ok(h),
        Err(m) => Err(AppError::Internal(APILayerError::new(m))),
    }
}

/// Verifies a password against a stored digest: true exactly when the
/// digest settles on this plaintext; an unreadable digest is an internal
/// error.
pub fn verify_password(plaintext: &str, digest: &str) -> (r: Result<bool, AppError>)
    ensures
        r matches Ok(b) ==> bcrypt_check(plaintext@, digest@) == Some(b),
        r matches Err(e) ==> e is Internal && bcrypt_check(plaintext@, digest@) is None,
        bcrypt_check(plaintext@, digest@) matches Some(b) ==> r matches Ok(rb) && rb == b,
{
    match bcrypt_verify(plaintext, digest) {
        Ok(b) => Ok(b),
        Err(m) => Err(AppError::Internal(APILayerError::new(m))),
    }
}

/// The sign-in decision, once the store was asked for the account: no
/// account or a failed check answers unauthorized; only a password whose
/// verification against the stored digest answers true signs the user in.
pub fn signin(account: Option<&User>, password: &str) -> (r: Result<UserId, AppError>)
    ensures
        account is None ==> (r matches Err(e) && e is Unauthorized),
        account matches Some(u) ==> match bcrypt_check(password@, u.password@) {
            Some(b) => if b {
                r == Ok::<UserId, AppError>(u.id)
            } else {
                r matches Err(e) && e is Unauthorized
            },
            None => r matches Err(e) && e is Internal,
        },
{
    let user = match account {
        Some(u) => u,
        None => {
            return Err(
                AppError::Unauthorized(APILayerError::new(String::from_str("User not found"))),
            );
        },
    };
    if verify_password(password, user.password.as_str())? {
        Ok(user.id)
    } else {
        Err(AppError::Unauthorized(APILayerError::new(String::from_str("Invalid password"))))
    }
}

} // verus!
