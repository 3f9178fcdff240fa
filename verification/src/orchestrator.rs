//! The registration orchestrator: signup and signup-verification as
//! two-phase, compensatable operations.
//!
//! `signup_begin` / `verify_begin` read the store, validate, and stage
//! everything a commit would write — the rows and the outgoing mail. The
//! matching `_finish` takes the mail transport's reported outcome: on
//! success it commits the staged rows; on failure it writes nothing, so
//! the store never holds a registration whose mail was not accepted.

use vstd::prelude::*;
use crate::credentials::{bcrypt_check, hash_password};
use crate::errors::{APILayerError, AppError, DbError};
use crate::messages::{
    confirmation_body, confirmation_message, verification_body, verification_message,
    EmailMessage,
};
use crate::models::{AppConfig, SignupRequest, SignupVerifyQuery, UserId};
use crate::store::{
    count_email, count_token, count_user_tokens, lemma_count_email_push, lemma_count_email_zero,
    lemma_count_token_push, lemma_count_token_zero, lemma_count_user_tokens_push,
    lemma_count_user_tokens_zero, mark_verified_seq, UserRow, UserStore,
};
use crate::validation::{signup_request_ok, validate_signup, validate_verify_query};

verus! {

/// How long a verification token lives: 24 hours, in seconds.
pub const TOKEN_TTL_SECONDS: i64 = 86400;

/// Everything a signup stages before its mail is dispatched: the user row
/// and token row to be written on commit, and the composed mail.
#[derive(Debug)]
pub struct PendingSignup {
    pub email: String,
    pub password_hash: String,
    pub token: String,
    pub expires_at: i64,
    pub message: EmailMessage,
}

impl PendingSignup {
    /// The staged rows can still be written into this store: the email and
    /// token are free, and an id is left to assign. `signup_begin`
    /// establishes this against the store it read; it keeps holding as long
    /// as nothing else writes that store — the transaction owns it.
    pub open spec fn valid_for(&self, s: &UserStore) -> bool {
        &&& s.wf()
        &&& !s.spec_email_taken(self.email@)
        &&& !s.spec_token_taken(self.token@)
        &&& s.next_id < i32::MAX
    }
}

/// Stages a signup from values already settled: the hash the password was
/// turned into, the fresh token value, and the current time. Nothing here
/// calls out, so the outcome is exact: staging succeeds when the email and
/// the token are free and an id is left; a taken email is the duplicate-
/// account error; the rest — a token collision, a spent id space — is
/// internal. The store is only read.
pub fn signup_stage(
    store: &UserStore,
    config: &AppConfig,
    email: &str,
    password_hash: &str,
    token_value: &str,
    now: i64,
) -> (r: Result<PendingSignup, AppError>)
    requires
        store.wf(),
        now + TOKEN_TTL_SECONDS <= i64::MAX,
    ensures
        r is Ok <==> (!store.spec_email_taken(email@) && !store.spec_token_taken(token_value@)
            && store.next_id < i32::MAX),
        store.spec_email_taken(email@) <==> (r matches Err(e) && e matches
            AppError::DatabaseQuery(d) && d is UniqueViolation),
        r matches Err(e) ==> (e is DatabaseQuery || e is Internal),
        r matches Err(AppError::DatabaseQuery(d)) ==> d is UniqueViolation,
        r matches Err(e) && e is Internal ==> !store.spec_email_taken(email@) && (
        store.spec_token_taken(token_value@) || store.next_id == i32::MAX),
        r matches Ok(p) ==> {
            &&& p.email@ == email@
            &&& p.password_hash@ == password_hash@
            &&& p.token@ == token_value@
            &&& p.expires_at == now + TOKEN_TTL_SECONDS
            &&& p.message.from@ == config.email_from@
            &&& p.message.to@ == email@
            &&& p.message.subject@ == "Welcome!"@
            &&& p.message.body@ == verification_body(config.client_url@, token_value@)
            &&& p.valid_for(store)
        },
{
    if store.email_taken(email) {
        return Err(
            AppError::DatabaseQuery(
                DbError::UniqueViolation(
                    String::from_str("duplicate key value violates unique constraint"),
                ),
            ),
        );
    }
    if store.token_taken(token_value) {
        return Err(
            AppError::Internal(APILayerError::new(String::from_str("token collision"))),
        );
    }
    if store.next_id_exhausted() {
        return Err(
            AppError::Internal(APILayerError::new(String::from_str("id space exhausted"))),
        );
    }
    let message = verification_message(config, email, token_value);
    Ok(
        PendingSignup {
            email: String::from_str(email),
            password_hash: String::from_str(password_hash),
            token: String::from_str(token_value),
            expires_at: now + TOKEN_TTL_SECONDS,
            message,
        },
    )
}

/// The first phase of a signup: validates the request — before any side
/// effect — hashes the password, and stages the rows and the verification
/// mail. The caller dispatches `message` and hands the outcome to
/// `signup_finish`. Hashing is the one step whose failure cannot be told
/// from the inputs; everything else is pinned down.
pub fn signup_begin(
    store: &UserStore,
    config: &AppConfig,
    req: &SignupRequest,
    token_value: &str,
    now: i64,
) -> (r: Result<PendingSignup, AppError>)
    requires
        store.wf(),
        now + TOKEN_TTL_SECONDS <= i64::MAX,
    ensures
        (r matches Err(e) && e is Validation) <==> !signup_request_ok(req),
        r matches Err(e) ==> (e is Validation || e is DatabaseQuery || e is Internal),
        r matches Err(AppError::DatabaseQuery(d)) ==> signup_request_ok(req)
            && store.spec_email_taken(req.email@) && d is UniqueViolation,
        signup_request_ok(req) && store.spec_email_taken(req.email@) ==> (r matches Err(e) && (
        e is Internal || e is DatabaseQuery)),
        r matches Err(e) && e is Internal ==> signup_request_ok(req),
        r is Ok ==> (signup_request_ok(req) && !store.spec_email_taken(req.email@)
            && !store.spec_token_taken(token_value@) && store.next_id < i32::MAX),
        r matches Ok(p) ==> {
            &&& p.email@ == req.email@
            &&& bcrypt_check(req.password@, p.password_hash@) == Some(true)
            &&& p.token@ == token_value@
            &&& p.expires_at == now + TOKEN_TTL_SECONDS
            &&& p.message.from@ == config.email_from@
            &&& p.message.to@ == req.email@
            &&& p.message.subject@ == "Welcome!"@
            &&& p.message.body@ == verification_body(config.client_url@, token_value@)
            &&& p.valid_for(store)
        },
{
    validate_signup(req)?;
    let password_hash = hash_password(req.password.as_str())?;
    signup_stage(store, config, req.email.as_str(), password_hash.as_str(), token_value, now)
}

/// Relies on chrono::Utc::now, read off as DateTime::timestamp: the current
/// time as seconds since the Unix epoch. Nothing is promised of it; callers
/// state what holds whatever instant comes back. On a system clock set
/// before the epoch chrono does not return normally; the library makes no
/// promise for such a machine.
#[verifier::external_body]
fn unix_now() -> (r: i64) {
    chrono::Utc::now().timestamp()
}

/// `signup_begin` at the current time: reads the clock and stages against
/// it. Everything except the staged expiry is as `signup_begin` pins it;
/// the expiry is the token's lifetime from whatever instant the clock
/// answered. A clock so far ahead that the expiry cannot be represented is
/// an internal error; no representable instant reaches it.
pub fn signup_begin_now(
    store: &UserStore,
    config: &AppConfig,
    req: &SignupRequest,
    token_value: &str,
) -> (r: Result<PendingSignup, AppError>)
    requires
        store.wf(),
    ensures
        (r matches Err(e) && e is Validation) <==> !signup_request_ok(req),
        r matches Err(e) ==> (e is Validation || e is DatabaseQuery || e is Internal),
        r matches Err(AppError::DatabaseQuery(d)) ==> signup_request_ok(req)
            && store.spec_email_taken(req.email@) && d is UniqueViolation,
        signup_request_ok(req) && store.spec_email_taken(req.email@) ==> (r matches Err(e) && (
        e is Internal || e is DatabaseQuery)),
        r is Ok ==> (signup_request_ok(req) && !store.spec_email_taken(req.email@)
            && !store.spec_token_taken(token_value@) && store.next_id < i32::MAX),
        r matches Ok(p) ==> {
            &&& p.email@ == req.email@
            &&& bcrypt_check(req.password@, p.password_hash@) == Some(true)
            &&& p.token@ == token_value@
            &&& p.message.from@ == config.email_from@
            &&& p.message.to@ == req.email@
            &&& p.message.subject@ == "Welcome!"@
            &&& p.message.body@ == verification_body(config.client_url@, token_value@)
            &&& p.valid_for(store)
        },
{
    validate_signup(req)?;
    let now = unix_now();
    if now > i64::MAX - TOKEN_TTL_SECONDS {
        return Err(
            AppError::Internal(APILayerError::new(String::from_str("clock out of range"))),
        );
    }
    signup_begin(store, config, req, token_value, now)
}

/// The second phase of a signup: the mail transport's outcome decides.
/// Accepted mail commits the staged pair — exactly one user row under the
/// email, unverified, and exactly one token row bound to it, expiring as
/// staged. Refused mail commits nothing: the store is exactly as it was,
/// holding no row under that email, and the caller sees an internal error
/// carrying the transport's message.
pub fn signup_finish(
    store: &mut UserStore,
    pending: PendingSignup,
    mail_result: Result<(), String>,
) -> (r: Result<UserId, AppError>)
    requires
        pending.valid_for(old(store)),
    ensures
        mail_result matches Err(m) ==> {
            &&& *final(store) == *old(store)
            &&& count_email(final(store).users@, pending.email@) == 0
            &&& count_token(final(store).tokens@, pending.token@) == 0
            &&& r matches Err(e) && e matches AppError::Internal(a) && a.message@ == m@
        },
        mail_result is Ok ==> {
            &&& r == Ok::<UserId, AppError>(UserId(old(store).next_id))
            &&& final(store).wf()
            &&& count_email(final(store).users@, pending.email@) == 1
            &&& count_token(final(store).tokens@, pending.token@) == 1
            &&& count_user_tokens(final(store).tokens@, UserId(old(store).next_id)) == 1
            &&& final(store).users@.len() == old(store).users@.len() + 1
            &&& forall|j: int|
                0 <= j < old(store).users@.len() ==> final(store).users@[j] == old(
                    store,
                ).users@[j]
            &&& final(store).users@.last().id == UserId(old(store).next_id)
            &&& final(store).users@.last().email@ == pending.email@
            &&& final(store).users@.last().password@ == pending.password_hash@
            &&& final(store).users@.last().email_verified == false
            &&& final(store).tokens@.len() == old(store).tokens@.len() + 1
            &&& forall|j: int|
                0 <= j < old(store).tokens@.len() ==> final(store).tokens@[j] == old(
                    store,
                ).tokens@[j]
            &&& final(store).tokens@.last().token@ == pending.token@
            &&& final(store).tokens@.last().user_id == UserId(old(store).next_id)
            &&& final(store).tokens@.last().expires_at == pending.expires_at
            &&& final(store).next_id == old(store).next_id + 1
        },
{
    match mail_result {
        Ok(()) => (),
        Err(m) => {
            proof {
                lemma_count_email_zero(store.users@, pending.email@);
                lemma_count_token_zero(store.tokens@, pending.token@);
            }
            return Err(AppError::Internal(APILayerError::new(m)));
        },
    }
    let user_id = match store.insert_user(pending.email.as_str(), pending.password_hash.as_str()) {
        Ok(id) => id,
        Err(e) => {
            // Unreachable: the staged rows are valid for this store.
            return Err(e);
        },
    };
    proof {
        assert(store.users@.drop_last() =~= old(store).users@);
        lemma_count_email_zero(old(store).users@, pending.email@);
        lemma_count_email_push(old(store).users@, store.users@.last(), pending.email@);
        assert(old(store).users@.push(store.users@.last()) =~= store.users@);
    }
    let ghost mid = *store;
    proof {
        assert(store.users@[store.users@.len() - 1].id == user_id);
        assert(store.spec_has_user(user_id));
        assert(store.tokens@ == old(store).tokens@);
        assert(!store.spec_token_taken(pending.token@));
    }
    match store.insert_token(user_id, pending.token.as_str(), pending.expires_at) {
        Ok(()) => (),
        Err(e) => {
            // Unreachable likewise: the token value is free.
            return Err(e);
        },
    };
    proof {
        assert(store.users@ == mid.users@);
        lemma_count_token_zero(old(store).tokens@, pending.token@);
        lemma_count_token_push(old(store).tokens@, store.tokens@.last(), pending.token@);
        assert(old(store).tokens@.push(store.tokens@.last()) =~= store.tokens@);
        lemma_count_user_tokens_zero(old(store).tokens@, user_id);
        assert forall|i: int|
            0 <= i < old(store).tokens@.len() implies (#[trigger] old(
            store,
        ).tokens@[i]).user_id != user_id by {
            assert(old(store).spec_has_user(old(store).tokens@[i].user_id));
            let k = choose|k: int|
                0 <= k < old(store).users@.len() && (#[trigger] old(store).users@[k]).id == old(
                    store,
                ).tokens@[i].user_id;
            assert(old(store).users@[k].id.0 < old(store).next_id);
        }
        lemma_count_user_tokens_push(old(store).tokens@, store.tokens@.last(), user_id);
    }
    Ok(user_id)
}

/// Everything a verification stages before its mail is dispatched: the
/// user to mark verified, their address, and the composed confirmation.
#[derive(Debug)]
pub struct PendingVerify {
    pub user_id: UserId,
    pub email: String,
    pub message: EmailMessage,
}

/// The first phase of a verification: an empty token is rejected before
/// the store is read; then the token is looked up, honored only while
/// unexpired. An unknown token and an expired one are indistinguishable:
/// both answer the same unauthorized error, leaving nothing to enumerate.
/// The store is only read, so a failed attempt changes no row.
pub fn verify_begin(
    store: &UserStore,
    config: &AppConfig,
    query: &SignupVerifyQuery,
    now: i64,
) -> (r: Result<PendingVerify, AppError>)
    requires
        store.wf(),
    ensures
        (r matches Err(e) && e is Validation) <==> query.token@.len() == 0,
        r matches Err(AppError::Validation(v)) ==> v.errors@.len() == 1 && v.errors@[0].code@
            == "token"@ && v.errors@[0].message@ == "token is required"@,
        (r matches Err(e) && e is Unauthorized) <==> (query.token@.len() > 0
            && store.spec_find_valid_token(query.token@, now as int) is None),
        r matches Err(AppError::Unauthorized(a)) ==> a.message@ == "Token has expired."@,
        r is Ok <==> (query.token@.len() > 0 && store.spec_find_valid_token(
            query.token@,
            now as int,
        ) is Some),
        r matches Ok(p) ==> {
            &&& Some(p.user_id) == store.spec_find_valid_token(query.token@, now as int)
            &&& store.spec_has_user(p.user_id)
            &&& p.email@ == store.users@[store.spec_user_index(p.user_id)].email@
            &&& p.message.from@ == config.email_from@
            &&& p.message.to@ == p.email@
            &&& p.message.subject@ == "Your registration has been completed.!"@
            &&& p.message.body@ == confirmation_body(config.client_url@)
        },
{
    validate_verify_query(query)?;
    let user_id = match store.find_valid_token(query.token.as_str(), now) {
        Some(user_id) => user_id,
        None => {
            return Err(
                AppError::Unauthorized(APILayerError::new(String::from_str("Token has expired."))),
            );
        },
    };
    proof {
        let k = store.spec_token_index(query.token@);
        assert(0 <= k < store.tokens@.len() && store.tokens@[k].token@ == query.token@);
        assert(store.spec_has_user(store.tokens@[k].user_id));
    }
    let user = match store.find_user_by_id(user_id) {
        Some(user) => user,
        None => {
            // Unreachable: every token row points at an existing user.
            return Err(
                AppError::DatabaseQuery(
                    DbError::Other(
                        String::from_str("no rows returned by a query that expected one"),
                    ),
                ),
            );
        },
    };
    let message = confirmation_message(config, user.email.as_str());
    Ok(PendingVerify { user_id, email: user.email, message })
}

/// The second phase of a verification: the mail transport's outcome
/// decides. Accepted mail commits the flip to verified — rewriting an
/// already-verified row, so repeating a verification is a no-op on state.
/// Refused mail commits nothing: the flip is undone and the caller sees an
/// internal error carrying the transport's message. Either way the token
/// rows are untouched, so what a token lookup answers does not change.
pub fn verify_finish(
    store: &mut UserStore,
    pending: PendingVerify,
    mail_result: Result<(), String>,
) -> (r: Result<(), AppError>)
    requires
        old(store).wf(),
        old(store).spec_has_user(pending.user_id),
    ensures
        mail_result matches Err(m) ==> {
            &&& *final(store) == *old(store)
            &&& r matches Err(e) && e matches AppError::Internal(a) && a.message@ == m@
        },
        mail_result is Ok ==> {
            &&& r is Ok
            &&& final(store).wf()
            &&& final(store).users@ =~= mark_verified_seq(old(store).users@, pending.user_id)
            &&& final(store).tokens@ == old(store).tokens@
            &&& final(store).next_id == old(store).next_id
            &&& final(store).spec_user_verified(pending.user_id)
            &&& forall|t: Seq<char>, n: int|
                final(store).spec_find_valid_token(t, n) == #[trigger] old(
                    store,
                ).spec_find_valid_token(t, n)
        },
{
    match mail_result {
        Ok(()) => (),
        Err(m) => {
            return Err(AppError::Internal(APILayerError::new(m)));
        },
    }
    match store.mark_verified(pending.user_id) {
        Ok(_) => {
            proof {
                let ghost prev = old(store).users@;
                let ghost cur = store.users@;
                let k = old(store).spec_user_index(pending.user_id);
                assert(0 <= k < prev.len() && prev[k].id == pending.user_id);
                assert(cur[k].id == pending.user_id && cur[k].email_verified);
                assert(store.spec_has_user(pending.user_id));
                let k2 = store.spec_user_index(pending.user_id);
                assert(0 <= k2 < cur.len() && cur[k2].id == pending.user_id);
                assert(k2 == k) by {
                    if k2 != k {
                        assert(cur[k2].id != cur[k].id);
                    }
                }
                assert forall|t: Seq<char>, n: int|
                    store.spec_find_valid_token(t, n) == #[trigger] old(
                    store,
                ).spec_find_valid_token(t, n) by {
                    lemma_token_lookup_reads_tokens(old(store), store, t, n);
                }
            }
            Ok(())
        },
        Err(e) => Err(e),
    }
}

/// What a token lookup answers is read off the token rows alone: two
/// well-formed stores agreeing on them answer every lookup alike.
pub proof fn lemma_token_lookup_reads_tokens(
    s1: &UserStore,
    s2: &UserStore,
    token: Seq<char>,
    now: int,
)
    requires
        s1.wf(),
        s1.tokens@ == s2.tokens@,
    ensures
        s1.spec_find_valid_token(token, now) == s2.spec_find_valid_token(token, now),
{
    assert(s1.spec_token_taken(token) == s2.spec_token_taken(token));
    if s1.spec_token_taken(token) {
        let i1 = s1.spec_token_index(token);
        let i2 = s2.spec_token_index(token);
        assert(0 <= i1 < s1.tokens@.len() && s1.tokens@[i1].token@ == token);
        assert(0 <= i2 < s2.tokens@.len() && s2.tokens@[i2].token@ == token);
        assert(i1 == i2) by {
            if i1 != i2 {
                assert(s1.tokens@[i1].token@ != s1.tokens@[i2].token@);
            }
        }
    }
}

/// Verification is idempotent at the state level: marking a user verified
/// a second time leaves every row exactly as the first marking did.
pub proof fn lemma_mark_verified_idempotent(users: Seq<UserRow>, id: UserId)
    ensures
        mark_verified_seq(mark_verified_seq(users, id), id) =~= mark_verified_seq(users, id),
{
}

/// Verifying twice with one still-unexpired token is safe: a committed
/// verification leaves the token rows untouched, so the second attempt is
/// authorized for the same user, and its commit leaves every row exactly
/// as the first did.
pub proof fn lemma_verify_twice(
    pre: &UserStore,
    post: &UserStore,
    uid: UserId,
    token: Seq<char>,
    now: int,
)
    requires
        pre.wf(),
        pre.spec_find_valid_token(token, now) == Some(uid),
        post.tokens@ == pre.tokens@,
        post.users@ =~= mark_verified_seq(pre.users@, uid),
    ensures
        post.spec_find_valid_token(token, now) == Some(uid),
        mark_verified_seq(post.users@, uid) =~= post.users@,
{
    lemma_token_lookup_reads_tokens(pre, post, token, now);
    lemma_mark_verified_idempotent(pre.users@, uid);
    assert(post.users@ == mark_verified_seq(pre.users@, uid));
}

} // verus!
