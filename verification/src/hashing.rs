//! The password hasher: memory-hard, salted, one-way hashing and
//! verification. The primitive itself is called through trusted wrappers;
//! what the rest of the crate relies on is only that a freshly produced hash
//! parses and matches its own password, and that parsing and matching depend
//! on nothing but their arguments.

use vstd::prelude::*;

use argon2::password_hash::{PasswordHash, PasswordHasher, SaltString};
use argon2::{Argon2, PasswordVerifier};
use rand::rngs::OsRng;

use crate::errors::AuthError;

verus! {

/// Whether a stored hash string is a well-formed PHC string, as decided by
/// `PasswordHash::new`; a function of the string alone.
pub uninterp spec fn phc_parses(stored: Seq<char>) -> bool;

/// Whether a password matches a stored hash, as decided by recomputing the
/// hash with the salt and parameters embedded in the stored string; a
/// function of the pair alone.
pub uninterp spec fn argon2_matches(password: Seq<char>, stored: Seq<char>) -> bool;

/// Relies on `Argon2::hash_password` with a salt from
/// `SaltString::generate(OsRng)`: on success the returned PHC string parses
/// back through `PasswordHash::new`, and `Argon2::verify_password` accepts
/// the same password against it, since verification recomputes the hash from
/// the embedded salt and parameters.
#[verifier::external_body]
fn argon2_hash(password: &str) -> (r: Option<String>)
    ensures
        r matches Some(h) ==> phc_parses(h@) && argon2_matches(password@, h@),
{
    let salt = SaltString::generate(&mut OsRng);
    match Argon2::default().hash_password(password.as_bytes(), &salt) {
        Ok(h) => Some(h.to_string()),
        Err(_) => None,
    }
}

/// Relies on `PasswordHash::new` (whether a stored string parses depends on
/// the string alone) and `Argon2::verify_password` (whether the password
/// matches depends on the password and the stored string alone).
#[verifier::external_body]
fn argon2_verify(password: &str, stored: &str) -> (r: Option<bool>)
    ensures
        r is Some <==> phc_parses(stored@),
        r matches Some(ok) ==> ok == argon2_matches(password@, stored@),
{
    match PasswordHash::new(stored) {
        Ok(parsed) => Some(
            Argon2::default().verify_password(password.as_bytes(), &parsed).is_ok(),
        ),
        Err(_) => None,
    }
}

/// The outcome `verify_password` is bound to: a malformed stored hash is the
/// internal `HashingFailure`, anything else answers whether the password
/// matches.
pub open spec fn password_check(password: Seq<char>, stored: Seq<char>) -> Result<bool, AuthError> {
    if phc_parses(stored) {
        Ok(argon2_matches(password, stored))
    } else {
        Err(AuthError::HashingFailure)
    }
}

/// Hashes a password with a fresh salt. The salt is drawn from the system
/// random source, so nothing pins the returned string itself; what is owed is
/// that, on success, the hash parses and matches exactly this password.
pub fn hash_password(password: &str) -> (r: Result<String, AuthError>)
    ensures
        r matches Ok(h) ==> phc_parses(h@) && argon2_matches(password@, h@),
        r is Err ==> r == Err::<String, AuthError>(AuthError::HashingFailure),
{
    match argon2_hash(password) {
        Some(h) => Ok(h),
        None => Err(AuthError::HashingFailure),
    }
}

/// Verifies a password against a stored hash. Never panics on malformed
/// input: a stored hash that does not parse is reported as `HashingFailure`,
/// an outcome distinct from a wrong password.
pub fn verify_password(password: &str, stored: &str) -> (r: Result<bool, AuthError>)
    ensures
        r == password_check(password@, stored@),
{
    match argon2_verify(password, stored) {
        Some(ok) => Ok(ok),
        None => Err(AuthError::HashingFailure),
    }
}

} // verus!
