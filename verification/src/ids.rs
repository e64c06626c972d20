//! Server-side identifier generation. Identifiers are opaque strings drawn
//! at random; collision probability is negligible, but never zero, so
//! adapters still check freshness before inserting.

use vstd::prelude::*;

verus! {

/// Relies on `uuid::Uuid::new_v4` and the `Display` impl of `uuid::Uuid`:
/// a fresh version-4 UUID rendered in the hyphenated form, which is always
/// 36 characters. The value is random, so nothing else is promised of it.
#[verifier::external_body]
pub(crate) fn generate_user_id() -> (r: String)
    ensures
        r@.len() == 36,
{
    uuid::Uuid::new_v4().to_string()
}

} // verus!
