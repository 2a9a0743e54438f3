//! The domain error taxonomy, kept apart from any transport rendering: the
//! outermost layer decides how each kind reaches the user.

use vstd::prelude::*;
use vstd::string::StringExecFns;

verus! {

/// Every failure a flow of this crate can report.
///
/// `EmailTaken`, `InvalidCredentials` and `InvalidOrExpiredToken` are
/// expected business failures; `Unauthenticated` is the middleware's answer
/// to a request without a live session;
/// `StoreFailure` and `HashingFailure` are internal and must never reach the
/// user verbatim.
#[derive(Clone, Copy, Debug, PartialEq, Eq, Structural)]
pub enum AuthError {
    EmailTaken,
    InvalidCredentials,
    InvalidOrExpiredToken,
    Unauthenticated,
    StoreFailure,
    HashingFailure,
}

/// Renders an error as the text a user may see. The two internal kinds are
/// merged into one generic message so that no lower-level detail leaks out.
pub fn to_err(e: &AuthError) -> (r: String)
    ensures
        e is EmailTaken ==> r@ == "email already in use"@,
        e is InvalidCredentials ==> r@ == "invalid credentials"@,
        e is InvalidOrExpiredToken ==> r@ == "invalid or expired link"@,
        e is Unauthenticated ==> r@ == "not authenticated"@,
        (e is StoreFailure || e is HashingFailure) ==> r@ == "internal error"@,
{
    match e {
        AuthError::EmailTaken => String::from_str("email already in use"),
        AuthError::InvalidCredentials => String::from_str("invalid credentials"),
        AuthError::InvalidOrExpiredToken => String::from_str("invalid or expired link"),
        AuthError::Unauthenticated => String::from_str("not authenticated"),
        AuthError::StoreFailure => String::from_str("internal error"),
        AuthError::HashingFailure => String::from_str("internal error"),
    }
}

} // verus!
