//! Data model of the registration core: user records, request bodies, and
//! the configuration the orchestrator is handed once at start.

use vstd::prelude::*;

verus! {

/// Stable server-assigned identifier of a user row.
#[derive(Debug, Clone, Copy, PartialEq, Eq, Hash, Structural)]
pub struct UserId(pub i32);

/// A user record as the store hands it out: the id, the email the account
/// was registered under, and the one-way hash of its password — never the
/// plaintext.
#[derive(Debug, Clone)]
pub struct User {
    pub id: UserId,
    pub email: String,
    pub password: String,
}

impl User {
    /// Copies the record field for field.
    pub fn duplicate(&self) -> (r: Self)
        ensures
            r == *self,
    {
        User { id: self.id, email: self.email.clone(), password: self.password.clone() }
    }
}

/// The body of a signup request.
#[derive(Debug)]
pub struct SignupRequest {
    pub email: String,
    pub password: String,
}

/// The query of a signup-verification request.
#[derive(Debug)]
pub struct SignupVerifyQuery {
    pub token: String,
}

/// The body of a sign-in request.
#[derive(Debug)]
pub struct SigninRequest {
    pub email: String,
    pub password: String,
}

/// Configuration the core needs at call time, resolved once at start:
/// the client base URL the verification link points into, and the address
/// outgoing mail is sent from.
#[derive(Debug)]
pub struct AppConfig {
    pub client_url: String,
    pub email_from: String,
}

} // verus!
