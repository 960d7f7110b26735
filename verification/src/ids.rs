//! Fresh random identifiers for lobbies and request traces.

use vstd::prelude::*;

verus! {

/// Relies on uuid::Uuid::new_v4 and its Display form: a freshly drawn
/// random version-4 UUID, rendered as the 36-character hyphenated
/// string. The value is random; nothing beyond its length is promised,
/// and two calls may or may not differ.
#[verifier::external_body]
pub(crate) fn fresh_token() -> (s: String)
    ensures
        s@.len() == 36,
{
    uuid::Uuid::new_v4().to_string()
}

} // verus!
