//! An in-memory model of the user store: the rows the registration flow
//! reads and writes, with the invariants the relational schema enforces —
//! unique ids, unique emails, unique tokens, and no token without its user.
//!
//! The orchestrator writes through this model only when a whole signup or
//! verification commits; a rolled-back attempt leaves it untouched.

use vstd::prelude::*;
use crate::errors::{APILayerError, AppError, DbError};
use crate::models::{User, UserId};

verus! {

/// A row of the users table.
#[derive(Debug)]
pub struct UserRow {
    pub id: UserId,
    pub email: String,
    /// One-way hash of the password; never the plaintext.
    pub password: String,
    /// Set exactly once, by a successful verification.
    pub email_verified: bool,
}

/// A row of the email-verification-tokens table.
#[derive(Debug)]
pub struct TokenRow {
    /// The unguessable token value; the lookup key.
    pub token: String,
    /// The owning user.
    pub user_id: UserId,
    /// Absolute expiry, in seconds since the Unix epoch.
    pub expires_at: i64,
}

/// How many user rows carry this email.
pub open spec fn count_email(users: Seq<UserRow>, email: Seq<char>) -> nat
    decreases users.len(),
{
    if users.len() == 0 {
        0
    } else {
        count_email(users.drop_last(), email) + if users.last().email@ == email {
            1nat
        } else {
            0nat
        }
    }
}

/// How many token rows carry this token value.
pub open spec fn count_token(tokens: Seq<TokenRow>, token: Seq<char>) -> nat
    decreases tokens.len(),
{
    if tokens.len() == 0 {
        0
    } else {
        count_token(tokens.drop_last(), token) + if tokens.last().token@ == token {
            1nat
        } else {
            0nat
        }
    }
}

/// How many token rows belong to this user.
pub open spec fn count_user_tokens(tokens: Seq<TokenRow>, id: UserId) -> nat
    decreases tokens.len(),
{
    if tokens.len() == 0 {
        0
    } else {
        count_user_tokens(tokens.drop_last(), id) + if tokens.last().user_id == id {
            1nat
        } else {
            0nat
        }
    }
}

/// A count is zero exactly when no row matches.
pub proof fn lemma_count_email_zero(users: Seq<UserRow>, email: Seq<char>)
    ensures
        (count_email(users, email) == 0) <==> (forall|i: int|
            0 <= i < users.len() ==> (#[trigger] users[i]).email@ != email),
    decreases users.len(),
{
    if users.len() > 0 {
        lemma_count_email_zero(users.drop_last(), email);
        assert(forall|i: int|
            0 <= i < users.len() - 1 ==> users.drop_last()[i] == #[trigger] users[i]);
        assert(users.last() == users[users.len() - 1]);
    }
}

/// Appending one row raises the matching count by one or leaves it.
pub proof fn lemma_count_email_push(users: Seq<UserRow>, row: UserRow, email: Seq<char>)
    ensures
        count_email(users.push(row), email) == count_email(users, email) + if row.email@
            == email {
            1nat
        } else {
            0nat
        },
{
    assert(users.push(row).drop_last() =~= users);
    assert(users.push(row).last() == row);
}

/// The same, for token values.
pub proof fn lemma_count_token_zero(tokens: Seq<TokenRow>, token: Seq<char>)
    ensures
        (count_token(tokens, token) == 0) <==> (forall|i: int|
            0 <= i < tokens.len() ==> (#[trigger] tokens[i]).token@ != token),
    decreases tokens.len(),
{
    if tokens.len() > 0 {
        lemma_count_token_zero(tokens.drop_last(), token);
        assert(forall|i: int|
            0 <= i < tokens.len() - 1 ==> tokens.drop_last()[i] == #[trigger] tokens[i]);
        assert(tokens.last() == tokens[tokens.len() - 1]);
    }
}

pub proof fn lemma_count_token_push(tokens: Seq<TokenRow>, row: TokenRow, token: Seq<char>)
    ensures
        count_token(tokens.push(row), token) == count_token(tokens, token) + if row.token@
            == token {
            1nat
        } else {
            0nat
        },
{
    assert(tokens.push(row).drop_last() =~= tokens);
    assert(tokens.push(row).last() == row);
}

pub proof fn lemma_count_user_tokens_zero(tokens: Seq<TokenRow>, id: UserId)
    ensures
        (count_user_tokens(tokens, id) == 0) <==> (forall|i: int|
            0 <= i < tokens.len() ==> (#[trigger] tokens[i]).user_id != id),
    decreases tokens.len(),
{
    if tokens.len() > 0 {
        lemma_count_user_tokens_zero(tokens.drop_last(), id);
        assert(forall|i: int|
            0 <= i < tokens.len() - 1 ==> tokens.drop_last()[i] == #[trigger] tokens[i]);
        assert(tokens.last() == tokens[tokens.len() - 1]);
    }
}

pub proof fn lemma_count_user_tokens_push(tokens: Seq<TokenRow>, row: TokenRow, id: UserId)
    ensures
        count_user_tokens(tokens.push(row), id) == count_user_tokens(tokens, id)
            + if row.user_id == id {
            1nat
        } else {
            0nat
        },
{
    assert(tokens.push(row).drop_last() =~= tokens);
    assert(tokens.push(row).last() == row);
}

/// In a store with pairwise-distinct emails, no email is on two rows.
pub proof fn lemma_count_email_at_most_one(users: Seq<UserRow>, email: Seq<char>)
    requires
        forall|i: int, j: int|
            #![trigger users[i], users[j]]
            0 <= i < j < users.len() ==> users[i].email@ != users[j].email@,
    ensures
        count_email(users, email) <= 1,
    decreases users.len(),
{
    if users.len() > 0 {
        assert(forall|i: int, j: int|
            #![trigger users.drop_last()[i], users.drop_last()[j]]
            0 <= i < j < users.len() - 1 ==> users.drop_last()[i].email@
                != users.drop_last()[j].email@) by {
            assert(forall|i: int|
                0 <= i < users.len() - 1 ==> users.drop_last()[i] == #[trigger] users[i]);
        }
        lemma_count_email_at_most_one(users.drop_last(), email);
        if users.last().email@ == email {
            assert(forall|i: int|
                0 <= i < users.len() - 1 ==> (#[trigger] users[i]).email@ != email) by {
                assert(users.last() == users[users.len() - 1]);
            }
            assert(forall|i: int|
                0 <= i < users.len() - 1 ==> (#[trigger] users.drop_last()[i]).email@ != email)
                by {
                assert(forall|i: int|
                    0 <= i < users.len() - 1 ==> users.drop_last()[i] == #[trigger] users[i]);
            }
            lemma_count_email_zero(users.drop_last(), email);
        }
    }
}

/// An email is taken exactly when the rows that carry it number at least
/// one; with the store's uniqueness this pins a duplicate-signup attempt:
/// the one existing row stays the only one.
pub proof fn lemma_email_taken_iff_count(s: &UserStore, email: Seq<char>)
    ensures
        s.spec_email_taken(email) <==> count_email(s.users@, email) > 0,
{
    lemma_count_email_zero(s.users@, email);
}

/// Compares a stored string with a borrowed one by contents.
fn str_equals(a: &String, b: &str) -> (r: bool)
    ensures
        r == (a@ == b@),
{
    let bs = String::from_str(b);
    *a == bs
}

/// The user store: the two tables and the next id the store will assign.
#[derive(Debug)]
pub struct UserStore {
    pub users: Vec<UserRow>,
    pub tokens: Vec<TokenRow>,
    pub next_id: i32,
}

impl UserStore {
    /// Some user row carries this email.
    pub open spec fn spec_email_taken(&self, email: Seq<char>) -> bool {
        exists|i: int| 0 <= i < self.users@.len() && (#[trigger] self.users@[i]).email@ == email
    }

    /// The row index of this email, when some row carries it.
    pub open spec fn spec_email_index(&self, email: Seq<char>) -> int {
        choose|i: int| 0 <= i < self.users@.len() && (#[trigger] self.users@[i]).email@ == email
    }

    /// Some user row carries this id.
    pub open spec fn spec_has_user(&self, id: UserId) -> bool {
        exists|i: int| 0 <= i < self.users@.len() && (#[trigger] self.users@[i]).id == id
    }

    /// The row index of this user id, when some row carries it.
    pub open spec fn spec_user_index(&self, id: UserId) -> int {
        choose|i: int| 0 <= i < self.users@.len() && (#[trigger] self.users@[i]).id == id
    }

    /// Some token row carries this token value.
    pub open spec fn spec_token_taken(&self, token: Seq<char>) -> bool {
        exists|i: int| 0 <= i < self.tokens@.len() && (#[trigger] self.tokens@[i]).token@ == token
    }

    /// The row index of this token value, when some row carries it.
    pub open spec fn spec_token_index(&self, token: Seq<char>) -> int {
        choose|i: int| 0 <= i < self.tokens@.len() && (#[trigger] self.tokens@[i]).token@ == token
    }

    /// What the schema guarantees: ids, emails and tokens are unique keys,
    /// every token row points at an existing user, and every assigned id
    /// lies below the next one.
    pub open spec fn wf(&self) -> bool {
        &&& forall|i: int, j: int|
            #![trigger self.users@[i], self.users@[j]]
            0 <= i < j < self.users@.len() ==> self.users@[i].id != self.users@[j].id
        &&& forall|i: int, j: int|
            #![trigger self.users@[i], self.users@[j]]
            0 <= i < j < self.users@.len() ==> self.users@[i].email@ != self.users@[j].email@
        &&& forall|i: int, j: int|
            #![trigger self.tokens@[i], self.tokens@[j]]
            0 <= i < j < self.tokens@.len() ==> self.tokens@[i].token@ != self.tokens@[j].token@
        &&& forall|i: int|
            0 <= i < self.tokens@.len() ==> self.spec_has_user(
                (#[trigger] self.tokens@[i]).user_id,
            )
        &&& forall|i: int|
            0 <= i < self.users@.len() ==> (#[trigger] self.users@[i]).id.0 < self.next_id
    }

    /// The user exists and is marked verified.
    pub open spec fn spec_user_verified(&self, id: UserId) -> bool {
        self.spec_has_user(id) && self.users@[self.spec_user_index(id)].email_verified
    }

    /// The token row with this value, when it exists and is unexpired at
    /// `now`: the owning user. An expired or unknown token answers nothing.
    pub open spec fn spec_find_valid_token(&self, token: Seq<char>, now: int) -> Option<UserId> {
        if self.spec_token_taken(token) && self.tokens@[self.spec_token_index(token)].expires_at
            > now {
            Some(self.tokens@[self.spec_token_index(token)].user_id)
        } else {
            None
        }
    }

    /// An empty store.
    pub fn new() -> (s: Self)
        ensures
            s.wf(),
            s.users@ =~= Seq::<UserRow>::empty(),
            s.tokens@ =~= Seq::<TokenRow>::empty(),
            s.next_id == 1,
    {
        UserStore { users: Vec::new(), tokens: Vec::new(), next_id: 1 }
    }

    /// Whether an account with this email exists.
    pub fn email_taken(&self, email: &str) -> (r: bool)
        ensures
            r == self.spec_email_taken(email@),
    {
        let mut i: usize = 0;
        while i < self.users.len()
            invariant
                i <= self.users@.len(),
                forall|j: int| 0 <= j < i ==> (#[trigger] self.users@[j]).email@ != email@,
            decreases self.users@.len() - i,
        {
            if str_equals(&self.users[i].email, email) {
                return true;
            }
            i = i + 1;
        }
        false
    }

    /// Whether a token row with this value exists, expired or not.
    pub fn token_taken(&self, token: &str) -> (r: bool)
        ensures
            r == self.spec_token_taken(token@),
    {
        let mut i: usize = 0;
        while i < self.tokens.len()
            invariant
                i <= self.tokens@.len(),
                forall|j: int| 0 <= j < i ==> (#[trigger] self.tokens@[j]).token@ != token@,
            decreases self.tokens@.len() - i,
        {
            if str_equals(&self.tokens[i].token, token) {
                return true;
            }
            i = i + 1;
        }
        false
    }

    /// Whether no id is left to assign.
    pub fn next_id_exhausted(&self) -> (r: bool)
        ensures
            r == (self.next_id == i32::MAX),
    {
        self.next_id == i32::MAX
    }

    /// The account with this email, as the store hands it out, or nothing.
    pub fn find_user_by_email(&self, email: &str) -> (r: Option<User>)
        requires
            self.wf(),
        ensures
            match r {
                Some(u) => {
                    &&& self.spec_email_taken(email@)
                    &&& u.id == self.users@[self.spec_email_index(email@)].id
                    &&& u.email@ == email@
                    &&& u.password@ == self.users@[self.spec_email_index(email@)].password@
                },
                None => !self.spec_email_taken(email@),
            },
    {
        let mut i: usize = 0;
        while i < self.users.len()
            invariant
                self.wf(),
                i <= self.users@.len(),
                forall|j: int| 0 <= j < i ==> (#[trigger] self.users@[j]).email@ != email@,
            decreases self.users@.len() - i,
        {
            if str_equals(&self.users[i].email, email) {
                proof {
                    let k = self.spec_email_index(email@);
                    assert(0 <= k < self.users@.len() && self.users@[k].email@ == email@);
                    assert(k == i) by {
                        if k != i {
                            assert(self.users@[k].email@ != self.users@[i as int].email@);
                        }
                    }
                }
                let row = &self.users[i];
                return Some(
                    User { id: row.id, email: row.email.clone(), password: row.password.clone() },
                );
            }
            i = i + 1;
        }
        None
    }

    /// Inserts a user row, unverified, under the next id. A taken email is
    /// the unique-key violation; a spent id space is an internal failure;
    /// nothing changes on either.
    pub fn insert_user(&mut self, email: &str, password_hash: &str) -> (r: Result<
        UserId,
        AppError,
    >)
        requires
            old(self).wf(),
        ensures
            final(self).wf(),
            r is Err ==> *final(self) == *old(self),
            old(self).spec_email_taken(email@) ==> (r matches Err(e) && e matches
                AppError::DatabaseQuery(d) && d is UniqueViolation),
            !old(self).spec_email_taken(email@) && old(self).next_id == i32::MAX ==> (r matches
                Err(e) && e is Internal),
            !old(self).spec_email_taken(email@) && old(self).next_id < i32::MAX ==> {
                &&& r == Ok::<UserId, AppError>(UserId(old(self).next_id))
                &&& final(self).users@.len() == old(self).users@.len() + 1
                &&& forall|j: int|
                    0 <= j < old(self).users@.len() ==> final(self).users@[j] == old(
                        self,
                    ).users@[j]
                &&& final(self).users@.last().id == UserId(old(self).next_id)
                &&& final(self).users@.last().email@ == email@
                &&& final(self).users@.last().password@ == password_hash@
                &&& final(self).users@.last().email_verified == false
                &&& final(self).tokens@ == old(self).tokens@
                &&& final(self).next_id == old(self).next_id + 1
            },
    {
        if self.email_taken(email) {
            return Err(
                AppError::DatabaseQuery(
                    DbError::UniqueViolation(
                        String::from_str("duplicate key value violates unique constraint"),
                    ),
                ),
            );
        }
        if self.next_id == i32::MAX {
            return Err(
                AppError::Internal(APILayerError::new(String::from_str("id space exhausted"))),
            );
        }
        let id = UserId(self.next_id);
        let row = UserRow {
            id,
            email: String::from_str(email),
            password: String::from_str(password_hash),
            email_verified: false,
        };
        self.users.push(row);
        self.next_id = self.next_id + 1;
        proof {
            let ghost prev = old(self).users@;
            let ghost cur = self.users@;
            assert(forall|j: int| 0 <= j < prev.len() ==> cur[j] == prev[j]);
            assert(cur.last() == cur[cur.len() - 1]);
            assert forall|a: int, b: int|
                #![trigger cur[a], cur[b]]
                0 <= a < b < cur.len() implies cur[a].id != cur[b].id && cur[a].email@
                != cur[b].email@ by {
                if b < prev.len() {
                    assert(prev[a].id != prev[b].id && prev[a].email@ != prev[b].email@);
                } else {
                    assert(prev[a].id.0 < old(self).next_id);
                    assert(!old(self).spec_email_taken(email@));
                    assert(prev[a].email@ != email@);
                }
            }
            assert forall|i: int|
                0 <= i < self.tokens@.len() implies self.spec_has_user(
                (#[trigger] self.tokens@[i]).user_id,
            ) by {
                assert(old(self).spec_has_user(old(self).tokens@[i].user_id));
                let k = choose|k: int|
                    0 <= k < prev.len() && (#[trigger] prev[k]).id == old(self).tokens@[i].user_id;
                assert(cur[k].id == old(self).tokens@[i].user_id);
            }
            assert forall|j: int| 0 <= j < cur.len() implies (#[trigger] cur[j]).id.0
                < self.next_id by {
                if j < prev.len() {
                    assert(prev[j].id.0 < old(self).next_id);
                }
            }
        }
        Ok(id)
    }

    /// Inserts a token row bound to an existing user. A token value already
    /// present — vanishingly unlikely of a fresh random token — is refused
    /// as an internal failure, and nothing changes.
    pub fn insert_token(&mut self, user_id: UserId, token: &str, expires_at: i64) -> (r: Result<
        (),
        AppError,
    >)
        requires
            old(self).wf(),
            old(self).spec_has_user(user_id),
        ensures
            final(self).wf(),
            r is Err ==> *final(self) == *old(self),
            old(self).spec_token_taken(token@) ==> (r matches Err(e) && e is Internal),
            !old(self).spec_token_taken(token@) ==> {
                &&& r is Ok
                &&& final(self).tokens@.len() == old(self).tokens@.len() + 1
                &&& forall|j: int|
                    0 <= j < old(self).tokens@.len() ==> final(self).tokens@[j] == old(
                        self,
                    ).tokens@[j]
                &&& final(self).tokens@.last().token@ == token@
                &&& final(self).tokens@.last().user_id == user_id
                &&& final(self).tokens@.last().expires_at == expires_at
                &&& final(self).users@ == old(self).users@
                &&& final(self).next_id == old(self).next_id
            },
    {
        let mut i: usize = 0;
        while i < self.tokens.len()
            invariant
                *self == *old(self),
                old(self).wf(),
                i <= self.tokens@.len(),
                forall|j: int| 0 <= j < i ==> (#[trigger] self.tokens@[j]).token@ != token@,
            decreases self.tokens@.len() - i,
        {
            if str_equals(&self.tokens[i].token, token) {
                return Err(
                    AppError::Internal(APILayerError::new(String::from_str("token collision"))),
                );
            }
            i = i + 1;
        }
        let row = TokenRow { token: String::from_str(token), user_id, expires_at };
        self.tokens.push(row);
        proof {
            let ghost prev = old(self).tokens@;
            let ghost cur = self.tokens@;
            assert(self.users@ == old(self).users@);
            assert(cur.last() == cur[cur.len() - 1]);
            assert forall|a: int, b: int|
                #![trigger cur[a], cur[b]]
                0 <= a < b < cur.len() implies cur[a].token@ != cur[b].token@ by {
                if b < prev.len() {
                    assert(prev[a].token@ != prev[b].token@);
                } else {
                    assert(!old(self).spec_token_taken(token@));
                    assert(prev[a].token@ != token@);
                }
            }
            assert forall|t: int|
                0 <= t < cur.len() implies self.spec_has_user((#[trigger] cur[t]).user_id) by {
                let owner = if t < prev.len() {
                    assert(old(self).spec_has_user(prev[t].user_id));
                    prev[t].user_id
                } else {
                    assert(old(self).spec_has_user(user_id));
                    user_id
                };
                let k = choose|k: int|
                    0 <= k < old(self).users@.len() && (#[trigger] old(self).users@[k]).id
                        == owner;
                assert(self.users@[k].id == owner);
            }
        }
        Ok(())
    }

    /// Looks a token up, honoring it only while `expires_at > now`. Unknown
    /// and expired tokens are indistinguishable here: both answer nothing.
    pub fn find_valid_token(&self, token: &str, now: i64) -> (r: Option<UserId>)
        requires
            self.wf(),
        ensures
            r == self.spec_find_valid_token(token@, now as int),
    {
        let mut i: usize = 0;
        while i < self.tokens.len()
            invariant
                self.wf(),
                i <= self.tokens@.len(),
                forall|j: int| 0 <= j < i ==> (#[trigger] self.tokens@[j]).token@ != token@,
            decreases self.tokens@.len() - i,
        {
            if str_equals(&self.tokens[i].token, token) {
                proof {
                    let k = self.spec_token_index(token@);
                    assert(0 <= k < self.tokens@.len() && self.tokens@[k].token@ == token@);
                    assert(k == i) by {
                        if k != i {
                            assert(self.tokens@[k].token@ != self.tokens@[i as int].token@);
                        }
                    }
                }
                if self.tokens[i].expires_at > now {
                    return Some(self.tokens[i].user_id);
                } else {
                    return None;
                }
            }
            i = i + 1;
        }
        None
    }
}

/// The users table with the given user marked verified; every other row,
/// and every other field of that row, kept as it was.
pub open spec fn mark_verified_seq(users: Seq<UserRow>, id: UserId) -> Seq<UserRow> {
    users.map_values(
        |r: UserRow|
            if r.id == id {
                UserRow { email_verified: true, ..r }
            } else {
                r
            },
    )
}

impl UserStore {
    /// Marks the user verified and hands the refreshed record back. Marking
    /// an already-verified user rewrites the same row: a no-op on state.
    /// An unknown id is a storage failure, and nothing changes.
    pub fn mark_verified(&mut self, user_id: UserId) -> (r: Result<User, AppError>)
        requires
            old(self).wf(),
        ensures
            final(self).wf(),
            r is Err ==> *final(self) == *old(self),
            !old(self).spec_has_user(user_id) ==> (r matches Err(e) && e matches
                AppError::DatabaseQuery(d) && d is Other),
            old(self).spec_has_user(user_id) ==> {
                &&& r matches Ok(u)
                &&& u.id == user_id
                &&& u.email@ == old(self).users@[old(self).spec_user_index(user_id)].email@
                &&& u.password@ == old(self).users@[old(self).spec_user_index(user_id)].password@
                &&& final(self).users@ =~= mark_verified_seq(old(self).users@, user_id)
                &&& final(self).tokens@ == old(self).tokens@
                &&& final(self).next_id == old(self).next_id
            },
    {
        let found = self.user_index_of(user_id);
        let i = match found {
            Some(i) => i,
            None => {
                return Err(
                    AppError::DatabaseQuery(
                        DbError::Other(
                            String::from_str("no rows returned by a query that expected one"),
                        ),
                    ),
                );
            },
        };
        self.users[i].email_verified = true;
        proof {
            let ghost prev = old(self).users@;
            let ghost cur = self.users@;
            assert forall|j: int| 0 <= j < cur.len() implies cur[j] == mark_verified_seq(
                prev,
                user_id,
            )[j] by {
                if j != i {
                    assert(prev[i as int].id == user_id);
                    if j < i { assert(prev[j].id != prev[i as int].id); }
                    if j > i { assert(prev[i as int].id != prev[j].id); }
                }
            }
            assert forall|a: int, b: int|
                #![trigger cur[a], cur[b]]
                0 <= a < b < cur.len() implies cur[a].id != cur[b].id && cur[a].email@
                != cur[b].email@ by {
                assert(prev[a].id != prev[b].id && prev[a].email@ != prev[b].email@);
                assert(prev[a].id == cur[a].id && prev[b].id == cur[b].id);
                assert(prev[a].email@ == cur[a].email@ && prev[b].email@ == cur[b].email@);
            }
            assert forall|t: int|
                0 <= t < self.tokens@.len() implies self.spec_has_user(
                (#[trigger] self.tokens@[t]).user_id,
            ) by {
                assert(old(self).spec_has_user(old(self).tokens@[t].user_id));
                let k = choose|k: int|
                    0 <= k < prev.len() && (#[trigger] prev[k]).id == old(self).tokens@[t].user_id;
                assert(cur[k].id == old(self).tokens@[t].user_id);
            }
            assert forall|j: int| 0 <= j < cur.len() implies (#[trigger] cur[j]).id.0
                < self.next_id by {
                assert(prev[j].id.0 < old(self).next_id);
            }
            assert(old(self).spec_user_index(user_id) == i as int) by {
                let k = old(self).spec_user_index(user_id);
                assert(0 <= k < prev.len() && prev[k].id == user_id);
                if k != i {
                    assert(prev[k].id != prev[i as int].id);
                }
            }
        }
        let row = &self.users[i];
        Ok(User { id: row.id, email: row.email.clone(), password: row.password.clone() })
    }

    /// The account with this id, as the store hands it out, or nothing.
    pub fn find_user_by_id(&self, id: UserId) -> (r: Option<User>)
        requires
            self.wf(),
        ensures
            match r {
                Some(u) => {
                    &&& self.spec_has_user(id)
                    &&& u.id == id
                    &&& u.email@ == self.users@[self.spec_user_index(id)].email@
                    &&& u.password@ == self.users@[self.spec_user_index(id)].password@
                },
                None => !self.spec_has_user(id),
            },
    {
        match self.user_index_of(id) {
            Some(i) => {
                proof {
                    let k = self.spec_user_index(id);
                    assert(0 <= k < self.users@.len() && self.users@[k].id == id);
                    assert(k == i) by {
                        if k != i {
                            assert(self.users@[k].id != self.users@[i as int].id);
                        }
                    }
                }
                let row = &self.users[i];
                Some(User { id: row.id, email: row.email.clone(), password: row.password.clone() })
            },
            None => None,
        }
    }

    /// Whether the user exists and is marked verified.
    pub fn is_user_verified(&self, id: UserId) -> (r: bool)
        requires
            self.wf(),
        ensures
            r == self.spec_user_verified(id),
    {
        match self.user_index_of(id) {
            Some(i) => {
                proof {
                    let k = self.spec_user_index(id);
                    assert(0 <= k < self.users@.len() && self.users@[k].id == id);
                    assert(k == i) by {
                        if k != i {
                            assert(self.users@[k].id != self.users@[i as int].id);
                        }
                    }
                }
                self.users[i].email_verified
            },
            None => false,
        }
    }

    /// The position of the user row with this id, when it exists.
    fn user_index_of(&self, user_id: UserId) -> (r: Option<usize>)
        requires
            self.wf(),
        ensures
            match r {
                Some(i) => i < self.users@.len() && self.users@[i as int].id == user_id,
                None => !self.spec_has_user(user_id),
            },
    {
        let mut i: usize = 0;
        while i < self.users.len()
            invariant
                i <= self.users@.len(),
                forall|j: int| 0 <= j < i ==> (#[trigger] self.users@[j]).id != user_id,
            decreases self.users@.len() - i,
        {
            if self.users[i].id == user_id {
                return Some(i);
            }
            i = i + 1;
        }
        None
    }

    /// Counts the user rows that carry this email: how many accounts the
    /// store holds under it.
    pub fn count_users_with_email(&self, email: &str) -> (n: usize)
        ensures
            n == count_email(self.users@, email@),
    {
        let mut n: usize = 0;
        let mut i: usize = 0;
        while i < self.users.len()
            invariant
                i <= self.users@.len(),
                n <= i,
                n == count_email(self.users@.take(i as int), email@),
            decreases self.users@.len() - i,
        {
            proof {
                assert(self.users@.take(i as int + 1).drop_last() =~= self.users@.take(i as int));
                assert(self.users@.take(i as int + 1).last() == self.users@[i as int]);
            }
            if str_equals(&self.users[i].email, email) {
                n = n + 1;
            }
            i = i + 1;
        }
        proof {
            assert(self.users@.take(self.users@.len() as int) =~= self.users@);
        }
        n
    }
}

} // verus!
