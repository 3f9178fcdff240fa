//! Composition of the two mails the flow sends: the verification mail with
//! its tokened link, and the confirmation mail after verification.
//!
//! The library only composes; dispatch belongs to the mail transport, whose
//! reported outcome the orchestrator turns into commit or rollback.

use vstd::prelude::*;
use crate::models::AppConfig;

verus! {

/// A fully-formed mail, ready for a transport: sender, recipient, subject
/// and body as plain text.
#[derive(Debug)]
pub struct EmailMessage {
    pub from: String,
    pub to: String,
    pub subject: String,
    pub body: String,
}

/// The body of the verification mail: the fixed line, then the verification
/// link with the raw token embedded.
pub open spec fn verification_body(client_url: Seq<char>, token: Seq<char>) -> Seq<char> {
    "Please click on the URL to authenticate .\n\n"@ + client_url + "/signup/verify?token="@
        + token
}

/// The body of the confirmation mail: the fixed line, then the sign-in URL.
pub open spec fn confirmation_body(client_url: Seq<char>) -> Seq<char> {
    "Please login from the following URL .\n\n"@ + client_url + "/signin"@
}

/// Composes the verification mail for a fresh signup: sent from the
/// configured address to the registering email, carrying the link that
/// embeds the raw token.
pub fn verification_message(config: &AppConfig, email: &str, token: &str) -> (m: EmailMessage)
    ensures
        m.from@ == config.email_from@,
        m.to@ == email@,
        m.subject@ == "Welcome!"@,
        m.body@ == verification_body(config.client_url@, token@),
{
    let body = String::from_str("Please click on the URL to authenticate .\n\n").concat(
        config.client_url.as_str(),
    ).concat("/signup/verify?token=").concat(token);
    EmailMessage {
        from: config.email_from.clone(),
        to: String::from_str(email),
        subject: String::from_str("Welcome!"),
        body,
    }
}

/// Composes the confirmation mail sent once an email is verified.
pub fn confirmation_message(config: &AppConfig, email: &str) -> (m: EmailMessage)
    ensures
        m.from@ == config.email_from@,
        m.to@ == email@,
        m.subject@ == "Your registration has been completed.!"@,
        m.body@ == confirmation_body(config.client_url@),
{
    let body = String::from_str("Please login from the following URL .\n\n").concat(
        config.client_url.as_str(),
    ).concat("/signin");
    EmailMessage {
        from: config.email_from.clone(),
        to: String::from_str(email),
        subject: String::from_str("Your registration has been completed.!"),
        body,
    }
}

} // verus!
