//! The three account flows: registration (uniqueness check, hashing, user
//! creation, verification-token issuance), login (lookup, password check,
//! session issuance) and email verification (token check, atomic consume and
//! stamp). Email dispatch and session issuance sit beside these: the caller
//! dispatches the verification mail between `register` and `create_session`,
//! and a dispatch failure must abort the request before any session exists.

use vstd::prelude::*;
use vstd::string::StringExecFns;

use crate::errors::AuthError;
use crate::hashing::{argon2_matches, hash_password, phc_parses, verify_password};
use crate::ids::fresh_opaque_id;
use crate::session::{create_session, SessionGrant, SESSION_TTL_SECONDS};
use crate::store::{
    email_present, lemma_user_at_email, lemma_verification_token_at, session_token_present,
    user_at_email, user_id_present, verification_token_at, verification_token_live,
    verification_token_present, AuthStore, Session, User, VerificationToken,
};

verus! {

/// Fixed verification-token lifetime: twenty-four hours, in seconds.
pub const VERIFICATION_TTL_SECONDS: u64 = 24 * 3600;

/// What a successful registration hands back: the fresh user id and the
/// verification token the outbound email must carry.
#[derive(Debug)]
pub struct Registration {
    pub user_id: String,
    pub verification_token: String,
    pub token_expires_at: u64,
}

/// Builds the link the verification email carries: the public base URL
/// followed by the verification entry point and the issued token.
pub fn verification_url(base: &str, token: &str) -> (r: String)
    ensures
        r@ == base@ + "/auth/verify?token="@ + token@,
{
    let mut url = base.to_owned();
    url.append("/auth/verify?token=");
    url.append(token);
    url
}

/// Registration steps one to four: fails fast with `EmailTaken` exactly when
/// the email is already in store; otherwise hashes the password, appends the
/// user row (unverified, with a fresh id) and a verification token expiring
/// `VERIFICATION_TTL_SECONDS` after `now`. On any failure the store is as it
/// was. No session is issued here: the caller must first dispatch the
/// verification email and abort if that fails.
pub fn register(
    store: &mut AuthStore,
    email: &String,
    password: &String,
    display_name: Option<String>,
    now: u64,
) -> (r: Result<Registration, AuthError>)
    requires
        old(store).wf(),
        now + VERIFICATION_TTL_SECONDS <= u64::MAX,
    ensures
        final(store).wf(),
        final(store).sessions@ == old(store).sessions@,
        r == Err::<Registration, AuthError>(AuthError::EmailTaken) <==> email_present(
            old(store).users@,
            email@,
        ),
        r is Err ==> final(store).users@ == old(store).users@ && final(store).tokens@ == old(store).tokens@,
        r is Err ==> (r == Err::<Registration, AuthError>(AuthError::EmailTaken) || r
            == Err::<Registration, AuthError>(AuthError::HashingFailure) || r == Err::<
            Registration,
            AuthError,
        >(AuthError::StoreFailure)),
        r matches Ok(reg) ==> ({
            let u = user_at_email(final(store).users@, email@);
            &&& !email_present(old(store).users@, email@)
            &&& !user_id_present(old(store).users@, reg.user_id@)
            &&& final(store).users@ == old(store).users@.push(u)
            &&& u.id@ == reg.user_id@
            &&& u.email@ == email@
            &&& u.display_name == display_name
            &&& u.email_verified_at is None
            &&& phc_parses(u.password_hash@)
            &&& argon2_matches(password@, u.password_hash@)
            &&& !verification_token_present(old(store).tokens@, reg.verification_token@)
            &&& reg.token_expires_at == now + VERIFICATION_TTL_SECONDS
            &&& final(store).tokens@ == old(store).tokens@.push(
                (VerificationToken {
                    token: reg.verification_token,
                    user_id: reg.user_id,
                    expires_at: reg.token_expires_at,
                }),
            )
        }),
{
    match store.check_uniqueness(email) {
        Err(e) => {
            return Err(e);
        },
        Ok(()) => {},
    }
    let hash = match hash_password(password.as_str()) {
        Ok(h) => h,
        Err(e) => {
            return Err(e);
        },
    };
    let user_id = fresh_opaque_id();
    let token = fresh_opaque_id();
    if store.find_user_by_id(&user_id).is_some() {
        return Err(AuthError::StoreFailure);
    }
    if store.find_token(&token).is_some() {
        return Err(AuthError::StoreFailure);
    }
    let ghost pre_users = store.users@;
    match store.create_user(user_id.clone(), email.clone(), hash, display_name) {
        Ok(()) => {},
        Err(e) => {
            return Err(e);
        },
    }
    proof {
        assert(store.users@[pre_users.len() as int].id@ == user_id@);
        assert(user_id_present(store.users@, user_id@));
    }
    let expires_at = now + VERIFICATION_TTL_SECONDS;
    match store.insert_verification_token(token.clone(), user_id.clone(), expires_at) {
        Ok(()) => {},
        Err(e) => {
            return Err(e);
        },
    }
    proof {
        lemma_user_at_email(store.users@, email@, pre_users.len() as int);
    }
    Ok(Registration { user_id, verification_token: token, token_expires_at: expires_at })
}

/// The exact reason a login attempt is turned away, if any: an unknown email
/// and a wrong password are both `InvalidCredentials` (indistinguishable, so
/// nothing leaks about which part was wrong), while a stored hash that does
/// not parse is the internal `HashingFailure`.
pub open spec fn credentials_error(users: Seq<User>, email: Seq<char>, password: Seq<char>) -> Option<
    AuthError,
> {
    if !email_present(users, email) {
        Some(AuthError::InvalidCredentials)
    } else if !phc_parses(user_at_email(users, email).password_hash@) {
        Some(AuthError::HashingFailure)
    } else if !argon2_matches(password, user_at_email(users, email).password_hash@) {
        Some(AuthError::InvalidCredentials)
    } else {
        None
    }
}

/// Login: looks the user up by email, verifies the password against the
/// stored hash, and on success issues a session expiring
/// `SESSION_TTL_SECONDS` after `now`. Exactly when `credentials_error` says
/// so, that error comes back and the store is untouched; with matching
/// credentials the only failure left is the internal one of session
/// issuance.
pub fn login(store: &mut AuthStore, email: &String, password: &String, now: u64) -> (r: Result<
    SessionGrant,
    AuthError,
>)
    requires
        old(store).wf(),
        now + SESSION_TTL_SECONDS <= u64::MAX,
    ensures
        final(store).wf(),
        final(store).users@ == old(store).users@,
        final(store).tokens@ == old(store).tokens@,
        credentials_error(old(store).users@, email@, password@) matches Some(e) ==> r == Err::<
            SessionGrant,
            AuthError,
        >(e) && final(store).sessions@ == old(store).sessions@,
        r matches Ok(g) ==> ({
            &&& credentials_error(old(store).users@, email@, password@) is None
            &&& g.expires_at == now + SESSION_TTL_SECONDS
            &&& !session_token_present(old(store).sessions@, g.token@)
            &&& final(store).sessions@ == old(store).sessions@.push(
                (Session {
                    token: g.token,
                    user_id: user_at_email(old(store).users@, email@).id,
                    expires_at: g.expires_at,
                }),
            )
        }),
        r is Err && credentials_error(old(store).users@, email@, password@) is None ==> r
            == Err::<SessionGrant, AuthError>(AuthError::StoreFailure) && final(store).sessions@
            == old(store).sessions@,
{
    let i = match store.find_user_by_email(email) {
        Some(i) => i,
        None => {
            return Err(AuthError::InvalidCredentials);
        },
    };
    proof {
        lemma_user_at_email(store.users@, email@, i as int);
    }
    let matches_stored = match verify_password(
        password.as_str(),
        store.users[i].password_hash.as_str(),
    ) {
        Ok(b) => b,
        Err(e) => {
            return Err(e);
        },
    };
    if !matches_stored {
        return Err(AuthError::InvalidCredentials);
    }
    let user_id = store.users[i].id.clone();
    create_session(store, &user_id, now)
}

/// Email verification: exactly when a token row with this value exists and
/// has not expired at `now`, the row is deleted and its user is stamped
/// verified, atomically from the caller's point of view (the deletion comes
/// first, the safer ordering). Everything else — a missing, expired or
/// already-consumed token — is the same `InvalidOrExpiredToken`, and the
/// store stays as it was.
pub fn verify_email(store: &mut AuthStore, token: &String, now: u64) -> (r: Result<
    String,
    AuthError,
>)
    requires
        old(store).wf(),
    ensures
        final(store).wf(),
        final(store).sessions@ == old(store).sessions@,
        r is Ok <==> verification_token_live(old(store).tokens@, token@, now),
        r is Err ==> r == Err::<String, AuthError>(AuthError::InvalidOrExpiredToken) && final(store).users@ == old(store).users@ && final(store).tokens@ == old(store).tokens@,
        r matches Ok(uid) ==> ({
            let row = verification_token_at(old(store).tokens@, token@);
            &&& uid@ == row.user_id@
            &&& !verification_token_present(final(store).tokens@, token@)
            &&& (exists|i: int|
                0 <= i < old(store).tokens@.len() && old(store).tokens@[i].token@ == token@
                    && final(store).tokens@ == old(store).tokens@.remove(i))
            &&& (exists|j: int|
                0 <= j < old(store).users@.len() && old(store).users@[j].id@ == row.user_id@
                    && final(store).users@ == old(store).users@.update(j, (User {
                    email_verified_at: Some(now),
                    ..old(store).users@[j]
                })))
        }),
{
    let i = match store.find_token(token) {
        Some(i) => i,
        None => {
            return Err(AuthError::InvalidOrExpiredToken);
        },
    };
    proof {
        lemma_verification_token_at(store.tokens@, token@, i as int);
    }
    if store.tokens[i].expires_at <= now {
        return Err(AuthError::InvalidOrExpiredToken);
    }
    let user_id = store.tokens[i].user_id.clone();
    store.delete_token(token);
    store.mark_verified(&user_id, now);
    Ok(user_id)
}

} // verus!
