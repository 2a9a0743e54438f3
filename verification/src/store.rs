//! The three shared stores of the core: user records, session rows and
//! email-verification tokens. They are the single source of truth for every
//! flow; each operation states exactly how it reads or rewrites them, and the
//! well-formedness invariant (unique emails, unique identifiers, and foreign
//! keys that resolve) is established by the constructor and preserved by
//! every write.

use vstd::prelude::*;
use vstd::pervasive::VecAdditionalExecFns;

use crate::errors::AuthError;

verus! {

/// A stored user: credentials and verification state. `password_hash` is the
/// output of the password hasher, never the raw password;
/// `email_verified_at` stays `None` until email verification succeeds.
pub struct User {
    pub id: String,
    pub email: String,
    pub password_hash: String,
    pub display_name: Option<String>,
    pub email_verified_at: Option<u64>,
}

/// A session row, keyed by its opaque bearer token.
pub struct Session {
    pub token: String,
    pub user_id: String,
    pub expires_at: u64,
}

/// A single-use, time-limited email-verification token.
pub struct VerificationToken {
    pub token: String,
    pub user_id: String,
    pub expires_at: u64,
}

/// Some user in `users` carries this email.
pub open spec fn email_present(users: Seq<User>, email: Seq<char>) -> bool {
    exists|i: int| 0 <= i < users.len() && users[i].email@ == email
}

/// Some user in `users` carries this identifier.
pub open spec fn user_id_present(users: Seq<User>, id: Seq<char>) -> bool {
    exists|i: int| 0 <= i < users.len() && users[i].id@ == id
}

/// Some session row carries this token.
pub open spec fn session_token_present(sessions: Seq<Session>, token: Seq<char>) -> bool {
    exists|i: int| 0 <= i < sessions.len() && sessions[i].token@ == token
}

/// Some verification-token row carries this token value.
pub open spec fn verification_token_present(tokens: Seq<VerificationToken>, token: Seq<char>) -> bool {
    exists|i: int| 0 <= i < tokens.len() && tokens[i].token@ == token
}

/// A session with this token exists and has not yet expired at `now`.
pub open spec fn session_live(sessions: Seq<Session>, token: Seq<char>, now: u64) -> bool {
    exists|i: int| 0 <= i < sessions.len() && sessions[i].token@ == token
        && sessions[i].expires_at > now
}

/// A verification token with this value exists and has not yet expired at `now`.
pub open spec fn verification_token_live(tokens: Seq<VerificationToken>, token: Seq<char>, now: u64) -> bool {
    exists|i: int| 0 <= i < tokens.len() && tokens[i].token@ == token
        && tokens[i].expires_at > now
}

/// The record holding `email`, meaningful when `email_present` holds.
pub open spec fn user_at_email(users: Seq<User>, email: Seq<char>) -> User
    recommends
        email_present(users, email),
{
    users[choose|i: int| 0 <= i < users.len() && users[i].email@ == email]
}

/// The record holding `id`, meaningful when `user_id_present` holds.
pub open spec fn user_at_id(users: Seq<User>, id: Seq<char>) -> User
    recommends
        user_id_present(users, id),
{
    users[choose|i: int| 0 <= i < users.len() && users[i].id@ == id]
}

/// The session row holding `token`, meaningful when `session_token_present` holds.
pub open spec fn session_at(sessions: Seq<Session>, token: Seq<char>) -> Session
    recommends
        session_token_present(sessions, token),
{
    sessions[choose|i: int| 0 <= i < sessions.len() && sessions[i].token@ == token]
}

/// The token row holding `token`, meaningful when `verification_token_present` holds.
pub open spec fn verification_token_at(tokens: Seq<VerificationToken>, token: Seq<char>) -> VerificationToken
    recommends
        verification_token_present(tokens, token),
{
    tokens[choose|i: int| 0 <= i < tokens.len() && tokens[i].token@ == token]
}

/// When emails are unique, the record `user_at_email` picks is the one at
/// any index whose email matches.
pub proof fn lemma_user_at_email(users: Seq<User>, email: Seq<char>, i: int)
    requires
        forall|a: int, b: int|
            0 <= a < b < users.len() ==> #[trigger] users[a].email@ != #[trigger] users[b].email@,
        0 <= i < users.len(),
        users[i].email@ == email,
    ensures
        email_present(users, email),
        user_at_email(users, email) == users[i],
{
    let c = choose|c: int| 0 <= c < users.len() && users[c].email@ == email;
    if c < i {
        assert(users[c].email@ != users[i].email@);
    } else if i < c {
        assert(users[i].email@ != users[c].email@);
    }
}

/// When user ids are unique, the record `user_at_id` picks is the one at any
/// index whose id matches.
pub proof fn lemma_user_at_id(users: Seq<User>, id: Seq<char>, i: int)
    requires
        forall|a: int, b: int|
            0 <= a < b < users.len() ==> #[trigger] users[a].id@ != #[trigger] users[b].id@,
        0 <= i < users.len(),
        users[i].id@ == id,
    ensures
        user_id_present(users, id),
        user_at_id(users, id) == users[i],
{
    let c = choose|c: int| 0 <= c < users.len() && users[c].id@ == id;
    if c < i {
        assert(users[c].id@ != users[i].id@);
    } else if i < c {
        assert(users[i].id@ != users[c].id@);
    }
}

/// When session tokens are unique, the row `session_at` picks is the one at
/// any index whose token matches.
pub proof fn lemma_session_at(sessions: Seq<Session>, token: Seq<char>, i: int)
    requires
        forall|a: int, b: int|
            0 <= a < b < sessions.len() ==> #[trigger] sessions[a].token@ != #[trigger] sessions[b].token@,
        0 <= i < sessions.len(),
        sessions[i].token@ == token,
    ensures
        session_token_present(sessions, token),
        session_at(sessions, token) == sessions[i],
{
    let c = choose|c: int| 0 <= c < sessions.len() && sessions[c].token@ == token;
    if c < i {
        assert(sessions[c].token@ != sessions[i].token@);
    } else if i < c {
        assert(sessions[i].token@ != sessions[c].token@);
    }
}

/// When verification tokens are unique, the row `verification_token_at`
/// picks is the one at any index whose token matches.
pub proof fn lemma_verification_token_at(tokens: Seq<VerificationToken>, token: Seq<char>, i: int)
    requires
        forall|a: int, b: int|
            0 <= a < b < tokens.len() ==> #[trigger] tokens[a].token@ != #[trigger] tokens[b].token@,
        0 <= i < tokens.len(),
        tokens[i].token@ == token,
    ensures
        verification_token_present(tokens, token),
        verification_token_at(tokens, token) == tokens[i],
{
    let c = choose|c: int| 0 <= c < tokens.len() && tokens[c].token@ == token;
    if c < i {
        assert(tokens[c].token@ != tokens[i].token@);
    } else if i < c {
        assert(tokens[i].token@ != tokens[c].token@);
    }
}

/// The shared persistence layer of the core. All state every flow touches
/// lives here; nothing else is held across requests.
pub struct AuthStore {
    pub users: Vec<User>,
    pub sessions: Vec<Session>,
    pub tokens: Vec<VerificationToken>,
}

impl AuthStore {
    /// Well-formedness: emails and user ids are unique, session tokens and
    /// verification tokens are unique, and every session or token row refers
    /// to an existing user.
    pub open spec fn wf(self) -> bool {
        &&& forall|i: int, j: int|
            0 <= i < j < self.users@.len() ==> #[trigger] self.users@[i].email@ != #[trigger] self.users@[j].email@
        &&& forall|i: int, j: int|
            0 <= i < j < self.users@.len() ==> #[trigger] self.users@[i].id@ != #[trigger] self.users@[j].id@
        &&& forall|i: int, j: int|
            0 <= i < j < self.sessions@.len() ==> #[trigger] self.sessions@[i].token@ != #[trigger] self.sessions@[j].token@
        &&& forall|i: int, j: int|
            0 <= i < j < self.tokens@.len() ==> #[trigger] self.tokens@[i].token@ != #[trigger] self.tokens@[j].token@
        &&& forall|i: int|
            0 <= i < self.sessions@.len() ==> user_id_present(self.users@, #[trigger] self.sessions@[i].user_id@)
        &&& forall|i: int|
            0 <= i < self.tokens@.len() ==> user_id_present(self.users@, #[trigger] self.tokens@[i].user_id@)
    }

    /// An empty, well-formed store.
    pub fn new() -> (r: AuthStore)
        ensures
            r.wf(),
            r.users@.len() == 0,
            r.sessions@.len() == 0,
            r.tokens@.len() == 0,
    {
        AuthStore { users: Vec::new(), sessions: Vec::new(), tokens: Vec::new() }
    }

    /// Index of the user holding `email`, if any.
    pub fn find_user_by_email(&self, email: &String) -> (r: Option<usize>)
        ensures
            r matches Some(i) ==> i < self.users@.len() && self.users@[i as int].email@ == email@,
            r is None <==> !email_present(self.users@, email@),
    {
        let n = self.users.len();
        for i in 0..n
            invariant
                n == self.users@.len(),
                forall|k: int| 0 <= k < i ==> self.users@[k].email@ != email@,
        {
            if self.users[i].email == *email {
                return Some(i);
            }
        }
        None
    }

    /// Index of the user holding `id`, if any.
    pub fn find_user_by_id(&self, id: &String) -> (r: Option<usize>)
        ensures
            r matches Some(i) ==> i < self.users@.len() && self.users@[i as int].id@ == id@,
            r is None <==> !user_id_present(self.users@, id@),
    {
        let n = self.users.len();
        for i in 0..n
            invariant
                n == self.users@.len(),
                forall|k: int| 0 <= k < i ==> self.users@[k].id@ != id@,
        {
            if self.users[i].id == *id {
                return Some(i);
            }
        }
        None
    }

    /// Index of the session row holding `token`, if any.
    pub fn find_session(&self, token: &String) -> (r: Option<usize>)
        ensures
            r matches Some(i) ==> i < self.sessions@.len() && self.sessions@[i as int].token@ == token@,
            r is None <==> !session_token_present(self.sessions@, token@),
    {
        let n = self.sessions.len();
        for i in 0..n
            invariant
                n == self.sessions@.len(),
                forall|k: int| 0 <= k < i ==> self.sessions@[k].token@ != token@,
        {
            if self.sessions[i].token == *token {
                return Some(i);
            }
        }
        None
    }

    /// Index of the verification-token row holding `token`, if any.
    pub fn find_token(&self, token: &String) -> (r: Option<usize>)
        ensures
            r matches Some(i) ==> i < self.tokens@.len() && self.tokens@[i as int].token@ == token@,
            r is None <==> !verification_token_present(self.tokens@, token@),
    {
        let n = self.tokens.len();
        for i in 0..n
            invariant
                n == self.tokens@.len(),
                forall|k: int| 0 <= k < i ==> self.tokens@[k].token@ != token@,
        {
            if self.tokens[i].token == *token {
                return Some(i);
            }
        }
        None
    }

    /// Appends a fresh user row. The store is the arbiter of conflicting
    /// writes: a duplicate email is the same `EmailTaken` outcome as the
    /// best-effort uniqueness check, and a colliding identifier is an
    /// internal failure. On any failure nothing changes.
    pub fn create_user(
        &mut self,
        id: String,
        email: String,
        password_hash: String,
        display_name: Option<String>,
    ) -> (r: Result<(), AuthError>)
        requires
            old(self).wf(),
        ensures
            final(self).wf(),
            final(self).sessions@ == old(self).sessions@,
            final(self).tokens@ == old(self).tokens@,
            email_present(old(self).users@, email@) ==> r == Err::<(), AuthError>(AuthError::EmailTaken),
            !email_present(old(self).users@, email@) && user_id_present(old(self).users@, id@)
                ==> r == Err::<(), AuthError>(AuthError::StoreFailure),
            r is Err ==> final(self).users@ == old(self).users@,
            r is Ok <==> !email_present(old(self).users@, email@) && !user_id_present(old(self).users@, id@),
            r is Ok ==> final(self).users@ == old(self).users@.push(
                (User { id, email, password_hash, display_name, email_verified_at: None }),
            ),
    {
        if self.find_user_by_email(&email).is_some() {
            return Err(AuthError::EmailTaken);
        }
        if self.find_user_by_id(&id).is_some() {
            return Err(AuthError::StoreFailure);
        }
        let ghost prior = self.users@;
        self.users.push(User { id, email, password_hash, display_name, email_verified_at: None });
        proof {
            assert forall|k: int| 0 <= k < self.sessions@.len() implies user_id_present(
                self.users@,
                #[trigger] self.sessions@[k].user_id@,
            ) by {
                let j = choose|j: int|
                    0 <= j < prior.len() && prior[j].id@ == self.sessions@[k].user_id@;
                assert(self.users@[j] == prior[j]);
            }
            assert forall|k: int| 0 <= k < self.tokens@.len() implies user_id_present(
                self.users@,
                #[trigger] self.tokens@[k].user_id@,
            ) by {
                let j = choose|j: int|
                    0 <= j < prior.len() && prior[j].id@ == self.tokens@[k].user_id@;
                assert(self.users@[j] == prior[j]);
            }
        }
        Ok(())
    }

    /// Appends a session row for an existing user; a token collision is an
    /// internal failure and leaves the store unchanged.
    pub fn insert_session(&mut self, token: String, user_id: String, expires_at: u64) -> (r: Result<(), AuthError>)
        requires
            old(self).wf(),
            user_id_present(old(self).users@, user_id@),
        ensures
            final(self).wf(),
            final(self).users@ == old(self).users@,
            final(self).tokens@ == old(self).tokens@,
            r is Ok <==> !session_token_present(old(self).sessions@, token@),
            r is Err ==> r == Err::<(), AuthError>(AuthError::StoreFailure)
                && final(self).sessions@ == old(self).sessions@,
            r is Ok ==> final(self).sessions@ == old(self).sessions@.push((Session { token, user_id, expires_at })),
    {
        if self.find_session(&token).is_some() {
            return Err(AuthError::StoreFailure);
        }
        self.sessions.push(Session { token, user_id, expires_at });
        Ok(())
    }

    /// Appends a verification-token row for an existing user; a token
    /// collision is an internal failure and leaves the store unchanged.
    pub fn insert_verification_token(&mut self, token: String, user_id: String, expires_at: u64) -> (r: Result<(), AuthError>)
        requires
            old(self).wf(),
            user_id_present(old(self).users@, user_id@),
        ensures
            final(self).wf(),
            final(self).users@ == old(self).users@,
            final(self).sessions@ == old(self).sessions@,
            r is Ok <==> !verification_token_present(old(self).tokens@, token@),
            r is Err ==> r == Err::<(), AuthError>(AuthError::StoreFailure)
                && final(self).tokens@ == old(self).tokens@,
            r is Ok ==> final(self).tokens@ == old(self).tokens@.push(
                (VerificationToken { token, user_id, expires_at }),
            ),
    {
        if self.find_token(&token).is_some() {
            return Err(AuthError::StoreFailure);
        }
        self.tokens.push(VerificationToken { token, user_id, expires_at });
        Ok(())
    }

    /// Deletes the session row holding `token` if one exists; deleting an
    /// absent row is not an error and changes nothing.
    pub fn delete_session(&mut self, token: &String)
        requires
            old(self).wf(),
        ensures
            final(self).wf(),
            final(self).users@ == old(self).users@,
            final(self).tokens@ == old(self).tokens@,
            !session_token_present(final(self).sessions@, token@),
            session_token_present(old(self).sessions@, token@) ==> exists|i: int|
                0 <= i < old(self).sessions@.len() && old(self).sessions@[i].token@ == token@
                    && final(self).sessions@ == old(self).sessions@.remove(i),
            !session_token_present(old(self).sessions@, token@) ==> final(self).sessions@ == old(self).sessions@,
    {
        match self.find_session(token) {
            Some(i) => {
                let ghost prior = self.sessions@;
                self.sessions.remove(i);
                proof {
                    prior.remove_ensures(i as int);
                    assert forall|k: int| 0 <= k < self.sessions@.len() implies #[trigger] self.sessions@[k].token@
                        != token@ by {
                        if k < i {
                            assert(self.sessions@[k] == prior[k]);
                        } else {
                            assert(self.sessions@[k] == prior[k + 1]);
                        }
                    }
                }
            },
            None => {},
        }
    }

    /// Deletes the verification-token row holding `token` if one exists;
    /// deleting an absent row is not an error and changes nothing.
    pub fn delete_token(&mut self, token: &String)
        requires
            old(self).wf(),
        ensures
            final(self).wf(),
            final(self).users@ == old(self).users@,
            final(self).sessions@ == old(self).sessions@,
            !verification_token_present(final(self).tokens@, token@),
            verification_token_present(old(self).tokens@, token@) ==> exists|i: int|
                0 <= i < old(self).tokens@.len() && old(self).tokens@[i].token@ == token@
                    && final(self).tokens@ == old(self).tokens@.remove(i),
            !verification_token_present(old(self).tokens@, token@) ==> final(self).tokens@ == old(self).tokens@,
    {
        match self.find_token(token) {
            Some(i) => {
                let ghost prior = self.tokens@;
                self.tokens.remove(i);
                proof {
                    prior.remove_ensures(i as int);
                    assert forall|k: int| 0 <= k < self.tokens@.len() implies #[trigger] self.tokens@[k].token@
                        != token@ by {
                        if k < i {
                            assert(self.tokens@[k] == prior[k]);
                        } else {
                            assert(self.tokens@[k] == prior[k + 1]);
                        }
                    }
                }
            },
            None => {},
        }
    }

    /// Stamps the user holding `user_id` as verified at `now`; every other
    /// field and every other row stays as it was. A missing user changes
    /// nothing.
    pub fn mark_verified(&mut self, user_id: &String, now: u64)
        requires
            old(self).wf(),
        ensures
            final(self).wf(),
            final(self).sessions@ == old(self).sessions@,
            final(self).tokens@ == old(self).tokens@,
            user_id_present(old(self).users@, user_id@) ==> exists|i: int|
                0 <= i < old(self).users@.len() && old(self).users@[i].id@ == user_id@
                    && final(self).users@ == old(self).users@.update(i, (User {
                        email_verified_at: Some(now),
                        ..old(self).users@[i]
                    })),
            !user_id_present(old(self).users@, user_id@) ==> final(self).users@ == old(self).users@,
    {
        match self.find_user_by_id(user_id) {
            Some(i) => {
                let row = &self.users[i];
                let stamped = User {
                    id: row.id.clone(),
                    email: row.email.clone(),
                    password_hash: row.password_hash.clone(),
                    display_name: match &row.display_name {
                        Some(n) => Some(n.clone()),
                        None => None,
                    },
                    email_verified_at: Some(now),
                };
                let ghost prior = self.users@;
                self.users.set(i, stamped);
                proof {
                    assert(self.users@ == prior.update(i as int, (User {
                        email_verified_at: Some(now),
                        ..prior[i as int]
                    })));
                    assert forall|k: int| 0 <= k < self.sessions@.len() implies user_id_present(
                        self.users@,
                        #[trigger] self.sessions@[k].user_id@,
                    ) by {
                        let w = choose|j: int|
                            0 <= j < prior.len() && prior[j].id@ == self.sessions@[k].user_id@;
                        assert(self.users@[w].id@ == prior[w].id@);
                    }
                    assert forall|k: int| 0 <= k < self.tokens@.len() implies user_id_present(
                        self.users@,
                        #[trigger] self.tokens@[k].user_id@,
                    ) by {
                        let w = choose|j: int|
                            0 <= j < prior.len() && prior[j].id@ == self.tokens@[k].user_id@;
                        assert(self.users@[w].id@ == prior[w].id@);
                    }
                }
            },
            None => {},
        }
    }

    /// Registration step one: fail with `EmailTaken` when a user with this
    /// email already exists.
    pub fn check_uniqueness(&self, email: &String) -> (r: Result<(), AuthError>)
        ensures
            r is Ok <==> !email_present(self.users@, email@),
            r is Err ==> r == Err::<(), AuthError>(AuthError::EmailTaken),
    {
        match self.find_user_by_email(email) {
            Some(_) => Err(AuthError::EmailTaken),
            None => Ok(()),
        }
    }
}

} // verus!
