//! Input validation: the email-format check and the password policy.
//!
//! A password is accepted when it is at least eight bytes long, holds no
//! whitespace, and holds at least one numeric and one uppercase character.
//! Both checks run before any side effect of a signup.

use vstd::prelude::*;
use vstd::string::StringSliceAdditionalSpecFns;
use crate::errors::{AppError, ValidationError, ValidationErrors};
use crate::models::{SignupRequest, SignupVerifyQuery};

verus! {

/// An ASCII letter or digit: the characters whose class membership the
/// specifications below settle outright.
pub open spec fn ascii_alphanumeric(c: char) -> bool {
    ('0' <= c && c <= '9') || ('a' <= c && c <= 'z') || ('A' <= c && c <= 'Z')
}

/// What char::is_whitespace answers beyond a space and the ASCII
/// alphanumerics: the rest of Unicode's White_Space table.
pub uninterp spec fn whitespace_char_other(c: char) -> bool;

/// Whether the char has Unicode's White_Space property. A plain space has
/// it and no ASCII letter or digit does; every other character is left to
/// the standard library's table.
pub open spec fn whitespace_char(c: char) -> bool {
    if c == ' ' {
        true
    } else if ascii_alphanumeric(c) {
        false
    } else {
        whitespace_char_other(c)
    }
}

/// What char::is_numeric answers beyond the ASCII alphanumerics: the rest
/// of Unicode's number categories.
pub uninterp spec fn numeric_char_other(c: char) -> bool;

/// Whether the char falls in one of Unicode's number categories. The
/// decimal digits do and the ASCII letters do not; every other character
/// is left to the standard library's table.
pub open spec fn numeric_char(c: char) -> bool {
    if '0' <= c && c <= '9' {
        true
    } else if ascii_alphanumeric(c) {
        false
    } else {
        numeric_char_other(c)
    }
}

/// What char::is_uppercase answers beyond the ASCII alphanumerics: the
/// rest of Unicode's uppercase property.
pub uninterp spec fn uppercase_char_other(c: char) -> bool;

/// Whether the char is Unicode uppercase. The ASCII capitals are, the
/// ASCII lowercase letters and digits are not; every other character is
/// left to the standard library's table.
pub open spec fn uppercase_char(c: char) -> bool {
    if 'A' <= c && c <= 'Z' {
        true
    } else if ascii_alphanumeric(c) {
        false
    } else {
        uppercase_char_other(c)
    }
}

/// Relies on char::is_whitespace: true iff the char has the White_Space
/// property. A space has it; no ASCII letter or digit does.
pub assume_specification[ char::is_whitespace ](c: char) -> (r: bool)
    ensures
        r == whitespace_char(c),
        c != ' ' && !ascii_alphanumeric(c) ==> r == whitespace_char_other(c),
;

/// Relies on char::is_numeric: true iff the char is in a number category.
/// The decimal digits are; no ASCII letter is.
pub assume_specification[ char::is_numeric ](c: char) -> (r: bool)
    ensures
        r == numeric_char(c),
        !ascii_alphanumeric(c) ==> r == numeric_char_other(c),
;

/// Relies on char::is_uppercase: true iff the char is uppercase. The ASCII
/// capitals are; no ASCII lowercase letter or digit is.
pub assume_specification[ char::is_uppercase ](c: char) -> (r: bool)
    ensures
        r == uppercase_char(c),
        !ascii_alphanumeric(c) ==> r == uppercase_char_other(c),
;

/// Whether the address is well-formed in the sense of the validator that
/// the signup form relies on.
pub uninterp spec fn email_valid(e: Seq<char>) -> bool;

/// Relies on validator::validate_email: well-formedness depends on the
/// characters alone, and an empty string is never a valid address.
#[verifier::external_body]
fn email_format_ok(s: &str) -> (r: bool)
    ensures
        r == email_valid(s@),
        s@.len() == 0 ==> !r,
{
    validator::validate_email(s)
}

/// The password policy: at least eight bytes in the UTF-8 encoding, no
/// whitespace, at least one numeric and one uppercase character.
pub open spec fn password_ok(p: Seq<char>) -> bool {
    &&& vstd::utf8::encode_utf8(p).len() >= 8
    &&& forall|i: int| 0 <= i < p.len() ==> !whitespace_char(#[trigger] p[i])
    &&& exists|i: int| 0 <= i < p.len() && numeric_char(#[trigger] p[i])
    &&& exists|i: int| 0 <= i < p.len() && uppercase_char(#[trigger] p[i])
}

/// A character sequence never encodes to fewer UTF-8 bytes than it has
/// characters, so eight characters always meet the policy's byte floor.
pub proof fn lemma_encoded_length_at_least(chars: Seq<char>)
    ensures
        vstd::utf8::encode_utf8(chars).len() >= chars.len(),
    decreases chars.len(),
{
    if chars.len() > 0 {
        lemma_encoded_length_at_least(chars.drop_first());
    }
}

/// Checks the password policy; a breach answers one field error.
pub fn validate_password(password: &str) -> (r: Result<(), ValidationError>)
    ensures
        r is Ok <==> password_ok(password@),
        r matches Err(e) ==> e.code@ == "password"@ && e.message@ == "Invalid password"@,
{
    let len = password.unicode_len();
    let mut has_whitespace = false;
    let mut has_numeric = false;
    let mut has_uppercase = false;
    let mut i: usize = 0;
    while i < len
        invariant
            len == password@.len(),
            i <= len,
            has_whitespace <==> exists|j: int|
                0 <= j < i && whitespace_char(#[trigger] password@[j]),
            has_numeric <==> exists|j: int| 0 <= j < i && numeric_char(#[trigger] password@[j]),
            has_uppercase <==> exists|j: int|
                0 <= j < i && uppercase_char(#[trigger] password@[j]),
        decreases len - i,
    {
        let c = password.get_char(i);
        if c.is_whitespace() {
            has_whitespace = true;
        }
        if c.is_numeric() {
            has_numeric = true;
        }
        if c.is_uppercase() {
            has_uppercase = true;
        }
        i = i + 1;
    }
    if password.as_bytes().len() < 8 || has_whitespace || !has_numeric || !has_uppercase {
        Err(
            ValidationError {
                code: String::from_str("password"),
                message: String::from_str("Invalid password"),
            },
        )
    } else {
        Ok(())
    }
}

/// Whether a whole signup request passes validation.
pub open spec fn signup_request_ok(req: &SignupRequest) -> bool {
    email_valid(req.email@) && password_ok(req.password@)
}

/// Validates a signup request: the email format first, then the password
/// policy. All breaches are reported together, in field order, and nothing
/// else is touched before they pass.
pub fn validate_signup(req: &SignupRequest) -> (r: Result<(), AppError>)
    ensures
        r is Ok <==> signup_request_ok(req),
        r matches Err(e) ==> e is Validation,
        !email_valid(req.email@) && !password_ok(req.password@) ==> (r matches Err(e)
            && e matches AppError::Validation(v) && v.errors@.len() == 2),
        !email_valid(req.email@) && password_ok(req.password@) ==> (r matches Err(e)
            && e matches AppError::Validation(v) && v.errors@.len() == 1 && v.errors@[0].code@
            == "email"@),
        email_valid(req.email@) && !password_ok(req.password@) ==> (r matches Err(e)
            && e matches AppError::Validation(v) && v.errors@.len() == 1 && v.errors@[0].code@
            == "password"@),
{
    let mut errors: Vec<ValidationError> = Vec::new();
    if !email_format_ok(req.email.as_str()) {
        errors.push(
            ValidationError {
                code: String::from_str("email"),
                message: String::from_str("Invalid email address"),
            },
        );
    }
    match validate_password(req.password.as_str()) {
        Ok(()) => (),
        Err(e) => errors.push(e),
    }
    if errors.len() == 0 {
        Ok(())
    } else {
        Err(AppError::Validation(ValidationErrors { errors }))
    }
}

/// Validates a verification query: the token must be non-empty. Checked
/// before the store is read.
pub fn validate_verify_query(query: &SignupVerifyQuery) -> (r: Result<(), AppError>)
    ensures
        r is Ok <==> query.token@.len() > 0,
        r matches Err(e) ==> e is Validation,
        r matches Err(AppError::Validation(v)) ==> v.errors@.len() == 1 && v.errors@[0].code@
            == "token"@ && v.errors@[0].message@ == "token is required"@,
{
    if query.token.as_str().is_empty() {
        let mut errors: Vec<ValidationError> = Vec::new();
        errors.push(
            ValidationError {
                code: String::from_str("token"),
                message: String::from_str("token is required"),
            },
        );
        Err(AppError::Validation(ValidationErrors { errors }))
    } else {
        Ok(())
    }
}

} // verus!
