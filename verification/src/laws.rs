//! The crate-level laws: what must hold of hashing, registration, sessions,
//! verification tokens and the middleware across calls, proved once over the
//! mathematical model that every contract speaks in.

use vstd::prelude::*;

use crate::errors::AuthError;
use crate::flows::credentials_error;
use crate::hashing::{argon2_matches, password_check, phc_parses};
use crate::store::{
    email_present, lemma_user_at_email, session_at, session_live, session_token_present,
    verification_token_live, verification_token_present, Session, User, VerificationToken,
};

verus! {

/// A password always verifies against a hash produced for it: for every
/// hash that parses and matches its password — which `hash_password`
/// guarantees of its output — the password check answers `Ok(true)`.
pub proof fn lemma_password_round_trip(password: Seq<char>, stored: Seq<char>)
    requires
        phc_parses(stored),
        argon2_matches(password, stored),
    ensures
        password_check(password, stored) == Ok::<bool, AuthError>(true),
{
}

/// A registered user's credentials are never turned away: in any store with
/// unique emails holding a record whose hash parses and matches the
/// password, login reports no credentials error for that email.
pub proof fn lemma_registered_user_logs_in(
    users: Seq<User>,
    email: Seq<char>,
    password: Seq<char>,
    i: int,
)
    requires
        forall|a: int, b: int|
            0 <= a < b < users.len() ==> #[trigger] users[a].email@ != #[trigger] users[b].email@,
        0 <= i < users.len(),
        users[i].email@ == email,
        phc_parses(users[i].password_hash@),
        argon2_matches(password, users[i].password_hash@),
    ensures
        credentials_error(users, email, password) is None,
{
    lemma_user_at_email(users, email, i);
}

/// Registering an email leaves it present in the store, so a second
/// registration of the same email must answer `EmailTaken` — and, by
/// `register`'s contract, append no second row.
pub proof fn lemma_second_registration_conflicts(users: Seq<User>, u: User)
    ensures
        email_present(users.push(u), u.email@),
{
    assert(users.push(u)[users.len() as int] == u);
}

/// A session just issued validates at once and fails once its expiry has
/// passed: pushing a row with a token no other row carries makes that token
/// live for its own user at any instant before `expires_at`, and dead at
/// any instant from `expires_at` on.
pub proof fn lemma_fresh_session_validates(
    sessions: Seq<Session>,
    s: Session,
    now: u64,
    later: u64,
)
    requires
        forall|i: int| 0 <= i < sessions.len() ==> #[trigger] sessions[i].token@ != s.token@,
        s.expires_at > now,
    ensures
        session_live(sessions.push(s), s.token@, now),
        session_at(sessions.push(s), s.token@).user_id@ == s.user_id@,
        later >= s.expires_at ==> !session_live(sessions.push(s), s.token@, later),
{
    let grown = sessions.push(s);
    let n = sessions.len() as int;
    assert(grown[n] == s);
    let c = choose|c: int| 0 <= c < grown.len() && grown[c].token@ == s.token@;
    if c < n {
        assert(grown[c] == sessions[c]);
    }
    assert(session_at(grown, s.token@) == s);
    if later >= s.expires_at {
        assert forall|j: int|
            0 <= j < grown.len() && #[trigger] grown[j].token@ == s.token@ implies !(grown[j].expires_at
            > later) by {
            if j < n {
                assert(grown[j] == sessions[j]);
            }
        }
    }
}

/// A token absent from the session store — in particular, one just revoked —
/// validates at no instant; and revoking it again finds nothing and, by
/// `revoke_session`'s contract, changes nothing.
pub proof fn lemma_revoked_session_never_validates(
    sessions: Seq<Session>,
    token: Seq<char>,
    now: u64,
)
    requires
        !session_token_present(sessions, token),
    ensures
        !session_live(sessions, token, now),
{
}

/// A consumed verification token — deleted from the store the moment it was
/// honoured — is rejected on every later presentation, whatever the clock
/// says.
pub proof fn lemma_consumed_token_rejected(
    tokens: Seq<VerificationToken>,
    token: Seq<char>,
    now: u64,
)
    requires
        !verification_token_present(tokens, token),
    ensures
        !verification_token_live(tokens, token, now),
{
}

/// An expired verification token is rejected even while its row still sits
/// in storage: when every row carrying the token has passed its expiry, the
/// token is not live.
pub proof fn lemma_expired_token_rejected(
    tokens: Seq<VerificationToken>,
    token: Seq<char>,
    now: u64,
)
    requires
        forall|i: int|
            0 <= i < tokens.len() ==> (#[trigger] tokens[i].token@ == token ==> tokens[i].expires_at
                <= now),
    ensures
        !verification_token_live(tokens, token, now),
{
}

/// An expired session never authenticates, even while its row still sits in
/// storage: when every row carrying the token has passed its expiry, the
/// token is not live, so `authenticate` answers `Unauthenticated`.
pub proof fn lemma_expired_session_rejected(sessions: Seq<Session>, token: Seq<char>, now: u64)
    requires
        forall|i: int|
            0 <= i < sessions.len() ==> (#[trigger] sessions[i].token@ == token
                ==> sessions[i].expires_at <= now),
    ensures
        !session_live(sessions, token, now),
{
}

} // verus!
