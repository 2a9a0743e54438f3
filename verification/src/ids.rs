//! Generation of the opaque identifiers the core hands out: user ids,
//! session tokens and verification tokens. All are random version-4 UUIDs;
//! nothing may be assumed about a fresh one beyond its rendered shape, so
//! every caller re-checks uniqueness against the store.

use vstd::prelude::*;

verus! {

/// Relies on `Uuid::new_v4` rendered through its `Display` form: a random
/// identifier in the hyphenated format, always 36 characters. Randomness
/// gives no further guarantee; in particular freshness is not promised.
#[verifier::external_body]
pub(crate) fn fresh_opaque_id() -> (r: String)
    ensures
        r@.len() == 36,
{
    uuid::Uuid::new_v4().to_string()
}

} // verus!
