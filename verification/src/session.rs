//! The session manager: issues, validates and revokes sessions, and fixes
//! the cookie encoding the transport layer must use. A session is valid
//! exactly when its row exists and its expiry lies strictly in the future.

use vstd::prelude::*;
use vstd::string::StringExecFns;

use crate::errors::AuthError;
use crate::ids::fresh_opaque_id;
use crate::store::{
    lemma_session_at, session_at, session_live, session_token_present, user_id_present, AuthStore,
    Session,
};

verus! {

/// Fixed session lifetime: thirty days, in seconds.
pub const SESSION_TTL_SECONDS: u64 = 30 * 86400;

/// What session issuance hands back: the bearer token and its absolute
/// expiry.
#[derive(Debug)]
pub struct SessionGrant {
    pub token: String,
    pub expires_at: u64,
}

/// Issues a fresh session for an existing user: one new row, expiring
/// exactly `SESSION_TTL_SECONDS` after `now`. The token is random, so a
/// collision with a stored token cannot be ruled out; it is re-checked and
/// reported as an internal failure that leaves the store unchanged.
pub fn create_session(store: &mut AuthStore, user_id: &String, now: u64) -> (r: Result<
    SessionGrant,
    AuthError,
>)
    requires
        old(store).wf(),
        user_id_present(old(store).users@, user_id@),
        now + SESSION_TTL_SECONDS <= u64::MAX,
    ensures
        final(store).wf(),
        final(store).users@ == old(store).users@,
        final(store).tokens@ == old(store).tokens@,
        r matches Ok(g) ==> ({
            &&& g.expires_at == now + SESSION_TTL_SECONDS
            &&& !session_token_present(old(store).sessions@, g.token@)
            &&& final(store).sessions@ == old(store).sessions@.push(
                (Session { token: g.token, user_id: *user_id, expires_at: g.expires_at }),
            )
        }),
        r is Err ==> r == Err::<SessionGrant, AuthError>(AuthError::StoreFailure)
            && final(store).sessions@ == old(store).sessions@,
{
    let token = fresh_opaque_id();
    let expires_at = now + SESSION_TTL_SECONDS;
    match store.insert_session(token.clone(), user_id.clone(), expires_at) {
        Ok(()) => Ok(SessionGrant { token, expires_at }),
        Err(e) => Err(e),
    }
}

/// Validates a presented token: the owning user id comes back exactly when
/// the row exists and has not expired at `now`. A missing row and an expired
/// row are indistinguishable in the result.
pub fn validate_session(store: &AuthStore, token: &String, now: u64) -> (r: Option<String>)
    requires
        store.wf(),
    ensures
        r is Some <==> session_live(store.sessions@, token@, now),
        r matches Some(uid) ==> uid@ == session_at(store.sessions@, token@).user_id@,
{
    match store.find_session(token) {
        Some(i) => {
            proof {
                lemma_session_at(store.sessions@, token@, i as int);
            }
            if store.sessions[i].expires_at > now {
                Some(store.sessions[i].user_id.clone())
            } else {
                None
            }
        },
        None => None,
    }
}

/// Revokes the session holding `token`. Idempotent: revoking a missing or
/// already-revoked session is not an error and changes nothing.
pub fn revoke_session(store: &mut AuthStore, token: &String)
    requires
        old(store).wf(),
    ensures
        final(store).wf(),
        final(store).users@ == old(store).users@,
        final(store).tokens@ == old(store).tokens@,
        !session_token_present(final(store).sessions@, token@),
        session_token_present(old(store).sessions@, token@) ==> exists|i: int|
            0 <= i < old(store).sessions@.len() && old(store).sessions@[i].token@ == token@
                && final(store).sessions@ == old(store).sessions@.remove(i),
        !session_token_present(old(store).sessions@, token@) ==> final(store).sessions@ == old(store).sessions@,
{
    store.delete_session(token);
}

/// The cookie the transport layer must set or clear, as data: the session
/// manager decides every attribute, the outer layer only renders them.
#[derive(Debug)]
pub struct CookiePlan {
    pub name: String,
    pub value: String,
    pub http_only: bool,
    pub same_site_lax: bool,
    pub secure: bool,
    pub path: String,
    pub max_age_seconds: u64,
}

/// The cookie carrying a fresh session token: `sid`, HTTP-only,
/// `SameSite=Lax`, path `/`, max-age equal to the session lifetime, and
/// `Secure` exactly when the deployment switch says so.
pub fn session_cookie(token: &String, secure: bool) -> (c: CookiePlan)
    ensures
        c.name@ == "sid"@,
        c.value@ == token@,
        c.http_only,
        c.same_site_lax,
        c.secure == secure,
        c.path@ == "/"@,
        c.max_age_seconds == SESSION_TTL_SECONDS,
{
    CookiePlan {
        name: String::from_str("sid"),
        value: token.clone(),
        http_only: true,
        same_site_lax: true,
        secure,
        path: String::from_str("/"),
        max_age_seconds: SESSION_TTL_SECONDS,
    }
}

/// The clearing form of the session cookie: same name and attributes, empty
/// value, max-age zero.
pub fn clear_session_cookie(secure: bool) -> (c: CookiePlan)
    ensures
        c.name@ == "sid"@,
        c.value@.len() == 0,
        c.http_only,
        c.same_site_lax,
        c.secure == secure,
        c.path@ == "/"@,
        c.max_age_seconds == 0,
{
    CookiePlan {
        name: String::from_str("sid"),
        value: String::new(),
        http_only: true,
        same_site_lax: true,
        secure,
        path: String::from_str("/"),
        max_age_seconds: 0,
    }
}

/// Logout: revokes the presented session and hands back the clearing cookie
/// in the same operation, so the cookie is never cleared without the
/// server-side session going too, nor the reverse.
pub fn logout(store: &mut AuthStore, token: Option<&String>, secure: bool) -> (c: CookiePlan)
    requires
        old(store).wf(),
    ensures
        final(store).wf(),
        final(store).users@ == old(store).users@,
        final(store).tokens@ == old(store).tokens@,
        token matches Some(t) ==> !session_token_present(final(store).sessions@, t@),
        token is Some && session_token_present(old(store).sessions@, token->Some_0@) ==> exists|i: int|
            0 <= i < old(store).sessions@.len() && old(store).sessions@[i].token@ == token->Some_0@
                && final(store).sessions@ == old(store).sessions@.remove(i),
        token is Some && !session_token_present(old(store).sessions@, token->Some_0@) ==> final(store).sessions@ == old(store).sessions@,
        token is None ==> final(store).sessions@ == old(store).sessions@,
        c.name@ == "sid"@,
        c.value@.len() == 0,
        c.http_only,
        c.same_site_lax,
        c.secure == secure,
        c.path@ == "/"@,
        c.max_age_seconds == 0,
{
    match token {
        Some(t) => revoke_session(store, t),
        None => {},
    }
    clear_session_cookie(secure)
}

} // verus!
