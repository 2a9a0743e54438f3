//! Authentication and session core of a small portfolio site: credential
//! hashing, session issuance and validation, single-use email-verification
//! tokens, and the middleware check that turns "has a valid session" into
//! "may reach a protected route". The persistence model, the flows and
//! their invariants are verified; the hashing and token-generation
//! primitives are called through trusted wrappers.

pub mod basics;
pub mod errors;
pub mod flows;
pub mod hashing;
pub mod ids;
pub mod laws;
pub mod middleware;
pub mod session;
pub mod store;
pub mod text;
pub mod viewdata;
