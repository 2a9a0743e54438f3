use rustfolio::errors::{to_err, AuthError};
use rustfolio::flows::{login, register, verification_url, verify_email, VERIFICATION_TTL_SECONDS};
use rustfolio::middleware::{authenticate, identity, session_active, session_token_from_cookie_header};
use rustfolio::hashing::{hash_password, verify_password};
use rustfolio::session::{
    clear_session_cookie, create_session, logout, revoke_session, session_cookie,
    validate_session, SESSION_TTL_SECONDS,
};
use rustfolio::store::AuthStore;

const NOW: u64 = 1_700_000_000;

fn registered_store(email: &str, password: &str) -> (AuthStore, String) {
    let mut store = AuthStore::new();
    let reg = register(
        &mut store,
        &email.to_string(),
        &password.to_string(),
        None,
        NOW,
    )
    .expect("registration should succeed");
    (store, reg.user_id)
}

#[test]
fn password_hash_round_trip() {
    let hash = hash_password("Secr3t!").expect("hashing should succeed");
    assert_ne!(hash, "Secr3t!");
    assert_eq!(verify_password("Secr3t!", &hash), Ok(true));
    assert_eq!(verify_password("wrong password", &hash), Ok(false));

    let other = hash_password("other password").expect("hashing should succeed");
    assert_eq!(verify_password("Secr3t!", &other), Ok(false));
}

#[test]
fn malformed_stored_hash_is_internal_error() {
    assert_eq!(
        verify_password("Secr3t!", "not a phc string"),
        Err(AuthError::HashingFailure)
    );
}

#[test]
fn register_sets_up_user_and_token() {
    let mut store = AuthStore::new();
    let reg = register(
        &mut store,
        &"alice@example.com".to_string(),
        &"Secr3t!".to_string(),
        Some("Alice".to_string()),
        NOW,
    )
    .expect("registration should succeed");

    assert_eq!(store.users.len(), 1);
    assert_eq!(store.users[0].email, "alice@example.com");
    assert_eq!(store.users[0].display_name, Some("Alice".to_string()));
    assert_eq!(store.users[0].email_verified_at, None);
    assert_ne!(store.users[0].password_hash, "Secr3t!");
    assert_eq!(reg.user_id.len(), 36);
    assert_eq!(reg.verification_token.len(), 36);
    assert_eq!(reg.token_expires_at, NOW + VERIFICATION_TTL_SECONDS);
    assert_eq!(store.tokens.len(), 1);
    assert_eq!(store.sessions.len(), 0);
}

#[test]
fn scenario_a_register_session_identity() {
    // Register, issue the session, carry the cookie, query the identity.
    let (mut store, user_id) = registered_store("alice@example.com", "Secr3t!");
    let grant = create_session(&mut store, &user_id, NOW).expect("session should be issued");
    assert_eq!(grant.expires_at, NOW + SESSION_TTL_SECONDS);

    let cookie = session_cookie(&grant.token, false);
    assert_eq!(cookie.name, "sid");
    assert_eq!(cookie.value, grant.token);

    let user = authenticate(&store, Some(&cookie.value), NOW).expect("the access check should forward");
    let me = identity(&store, &user).expect("identity should resolve");
    assert_eq!(me.email, "alice@example.com");
    assert_eq!(me.display_name, None);
}

#[test]
fn scenario_b_duplicate_registration_conflicts() {
    let (mut store, _) = registered_store("alice@example.com", "Secr3t!");
    let first_hash = store.users[0].password_hash.clone();

    let second = register(
        &mut store,
        &"alice@example.com".to_string(),
        &"An0ther!".to_string(),
        None,
        NOW + 5,
    );
    assert_eq!(second.unwrap_err(), AuthError::EmailTaken);
    assert_eq!(store.users.len(), 1);
    assert_eq!(store.users[0].password_hash, first_hash);

    // The original user is untouched and can still log in.
    login(
        &mut store,
        &"alice@example.com".to_string(),
        &"Secr3t!".to_string(),
        NOW + 10,
    )
    .expect("original credentials should still work");
}

#[test]
fn scenario_c_wrong_password_rejected() {
    let (mut store, _) = registered_store("alice@example.com", "Secr3t!");
    let attempt = login(
        &mut store,
        &"alice@example.com".to_string(),
        &"not the password".to_string(),
        NOW,
    );
    assert_eq!(attempt.unwrap_err(), AuthError::InvalidCredentials);
    assert_eq!(store.sessions.len(), 0);
}

#[test]
fn unknown_email_same_rejection() {
    let mut store = AuthStore::new();
    let attempt = login(
        &mut store,
        &"nobody@example.com".to_string(),
        &"Secr3t!".to_string(),
        NOW,
    );
    assert_eq!(attempt.unwrap_err(), AuthError::InvalidCredentials);
}

#[test]
fn session_validates_until_expiry() {
    let (mut store, user_id) = registered_store("alice@example.com", "Secr3t!");
    let grant = create_session(&mut store, &user_id, NOW).expect("session should be issued");

    assert_eq!(validate_session(&store, &grant.token, NOW), Some(user_id.clone()));
    assert_eq!(
        validate_session(&store, &grant.token, grant.expires_at - 1),
        Some(user_id)
    );
    // At and after the expiry instant the same row no longer validates.
    assert_eq!(validate_session(&store, &grant.token, grant.expires_at), None);
    assert_eq!(validate_session(&store, &grant.token, grant.expires_at + 1), None);
}

#[test]
fn revoked_session_never_validates_again() {
    let (mut store, user_id) = registered_store("alice@example.com", "Secr3t!");
    let grant = create_session(&mut store, &user_id, NOW).expect("session should be issued");

    revoke_session(&mut store, &grant.token);
    assert_eq!(validate_session(&store, &grant.token, NOW), None);

    // Revoking again is not an error and changes nothing.
    revoke_session(&mut store, &grant.token);
    assert_eq!(validate_session(&store, &grant.token, NOW), None);
    assert_eq!(store.sessions.len(), 0);
}

#[test]
fn logout_revokes_and_clears_together() {
    let (mut store, user_id) = registered_store("alice@example.com", "Secr3t!");
    let grant = create_session(&mut store, &user_id, NOW).expect("session should be issued");

    let cookie = logout(&mut store, Some(&grant.token), true);
    assert_eq!(cookie.name, "sid");
    assert_eq!(cookie.value, "");
    assert_eq!(cookie.max_age_seconds, 0);
    assert!(cookie.secure);
    assert_eq!(validate_session(&store, &grant.token, NOW), None);

    // Logging out without a cookie still answers with a clearing cookie.
    let cookie = logout(&mut store, None, false);
    assert_eq!(cookie.value, "");
}

#[test]
fn verification_token_is_single_use() {
    let mut store = AuthStore::new();
    let reg = register(
        &mut store,
        &"alice@example.com".to_string(),
        &"Secr3t!".to_string(),
        None,
        NOW,
    )
    .expect("registration should succeed");

    let verified = verify_email(&mut store, &reg.verification_token, NOW + 60)
        .expect("a live token should be honoured");
    assert_eq!(verified, reg.user_id);
    assert_eq!(store.users[0].email_verified_at, Some(NOW + 60));
    assert_eq!(store.tokens.len(), 0);

    // Consuming the same token again fails and the stamp stays as it was.
    let again = verify_email(&mut store, &reg.verification_token, NOW + 120);
    assert_eq!(again.unwrap_err(), AuthError::InvalidOrExpiredToken);
    assert_eq!(store.users[0].email_verified_at, Some(NOW + 60));
}

#[test]
fn scenario_d_expired_token_rejected() {
    let mut store = AuthStore::new();
    let reg = register(
        &mut store,
        &"alice@example.com".to_string(),
        &"Secr3t!".to_string(),
        None,
        NOW,
    )
    .expect("registration should succeed");

    // Visit the link at the end of the window: the row still exists in
    // storage, but the token is no longer honoured.
    let attempt = verify_email(&mut store, &reg.verification_token, reg.token_expires_at);
    assert_eq!(attempt.unwrap_err(), AuthError::InvalidOrExpiredToken);
    assert_eq!(store.tokens.len(), 1);
    assert_eq!(store.users[0].email_verified_at, None);
}

#[test]
fn unknown_verification_token_rejected() {
    let mut store = AuthStore::new();
    let attempt = verify_email(&mut store, &"no-such-token".to_string(), NOW);
    assert_eq!(attempt.unwrap_err(), AuthError::InvalidOrExpiredToken);
}

#[test]
fn middleware_forwards_valid_and_rejects_the_rest() {
    let (mut store, user_id) = registered_store("alice@example.com", "Secr3t!");
    let grant = create_session(&mut store, &user_id, NOW).expect("session should be issued");

    // Valid cookie: forwarded, with the owning identity attached.
    let user = authenticate(&store, Some(&grant.token), NOW).expect("the access check should forward");
    assert_eq!(user.id, user_id);
    assert!(session_active(&store, Some(&grant.token), NOW));

    // Missing cookie.
    assert_eq!(
        authenticate(&store, None, NOW).unwrap_err(),
        AuthError::Unauthenticated
    );
    // Malformed or unknown token.
    let garbage = "!!not-a-token!!".to_string();
    assert_eq!(
        authenticate(&store, Some(&garbage), NOW).unwrap_err(),
        AuthError::Unauthenticated
    );
    // Expired session.
    assert_eq!(
        authenticate(&store, Some(&grant.token), grant.expires_at).unwrap_err(),
        AuthError::Unauthenticated
    );
    assert!(!session_active(&store, Some(&grant.token), grant.expires_at));
    // Revoked session.
    revoke_session(&mut store, &grant.token);
    assert_eq!(
        authenticate(&store, Some(&grant.token), NOW).unwrap_err(),
        AuthError::Unauthenticated
    );
}

#[test]
fn login_issues_independent_sessions() {
    let (mut store, _) = registered_store("alice@example.com", "Secr3t!");
    let first = login(
        &mut store,
        &"alice@example.com".to_string(),
        &"Secr3t!".to_string(),
        NOW,
    )
    .expect("login should succeed");
    let second = login(
        &mut store,
        &"alice@example.com".to_string(),
        &"Secr3t!".to_string(),
        NOW + 1,
    )
    .expect("login should succeed");

    assert_ne!(first.token, second.token);
    assert_eq!(store.sessions.len(), 2);
    assert!(session_active(&store, Some(&first.token), NOW + 2));
    assert!(session_active(&store, Some(&second.token), NOW + 2));
}

#[test]
fn verification_url_carries_the_token() {
    let url = verification_url("http://localhost:8080", "abc123");
    assert_eq!(url, "http://localhost:8080/auth/verify?token=abc123");
}

#[test]
fn session_cookie_attributes() {
    let token = "token-value".to_string();
    let cookie = session_cookie(&token, true);
    assert_eq!(cookie.name, "sid");
    assert_eq!(cookie.value, "token-value");
    assert!(cookie.http_only);
    assert!(cookie.same_site_lax);
    assert!(cookie.secure);
    assert_eq!(cookie.path, "/");
    assert_eq!(cookie.max_age_seconds, SESSION_TTL_SECONDS);

    let cleared = clear_session_cookie(false);
    assert_eq!(cleared.name, "sid");
    assert_eq!(cleared.value, "");
    assert!(!cleared.secure);
    assert_eq!(cleared.max_age_seconds, 0);
}

#[test]
fn store_rejects_conflicting_writes() {
    let mut store = AuthStore::new();
    store
        .create_user(
            "id-1".to_string(),
            "alice@example.com".to_string(),
            "hash".to_string(),
            None,
        )
        .expect("first insert should succeed");

    // Same email: the store maps the conflict to EmailTaken.
    assert_eq!(
        store.create_user(
            "id-2".to_string(),
            "alice@example.com".to_string(),
            "hash".to_string(),
            None,
        ),
        Err(AuthError::EmailTaken)
    );
    // Same primary key: an internal failure.
    assert_eq!(
        store.create_user(
            "id-1".to_string(),
            "bob@example.com".to_string(),
            "hash".to_string(),
            None,
        ),
        Err(AuthError::StoreFailure)
    );
    assert_eq!(store.users.len(), 1);
}

#[test]
fn error_messages_hide_internal_detail() {
    assert_eq!(to_err(&AuthError::EmailTaken), "email already in use");
    assert_eq!(to_err(&AuthError::InvalidCredentials), "invalid credentials");
    assert_eq!(to_err(&AuthError::InvalidOrExpiredToken), "invalid or expired link");
    assert_eq!(to_err(&AuthError::Unauthenticated), "not authenticated");
    assert_eq!(to_err(&AuthError::StoreFailure), "internal error");
    assert_eq!(to_err(&AuthError::HashingFailure), "internal error");
}

#[test]
fn cookie_header_extraction() {
    assert_eq!(
        session_token_from_cookie_header("sid=abc123"),
        Some("abc123".to_string())
    );
    assert_eq!(
        session_token_from_cookie_header("theme=dark; sid=abc123"),
        Some("abc123".to_string())
    );
    assert_eq!(
        session_token_from_cookie_header("sid=abc; theme=dark"),
        Some("abc".to_string())
    );
    // An empty value is still a `sid` cookie.
    assert_eq!(session_token_from_cookie_header("sid="), Some(String::new()));
    // A cookie whose name merely contains `sid` does not match.
    assert_eq!(session_token_from_cookie_header("ssid=nope"), None);
    assert_eq!(session_token_from_cookie_header("theme=dark"), None);
    assert_eq!(session_token_from_cookie_header(""), None);
    assert_eq!(session_token_from_cookie_header("sid"), None);
}

#[test]
fn cookie_header_to_authenticated_request() {
    let (mut store, user_id) = registered_store("alice@example.com", "Secr3t!");
    let grant = create_session(&mut store, &user_id, NOW).expect("session should be issued");

    let header = format!("theme=dark; sid={}", grant.token);
    let token = session_token_from_cookie_header(&header).expect("the header carries sid");
    let user =
        authenticate(&store, Some(&token), NOW).expect("the access check should forward");
    assert_eq!(user.id, user_id);
}
