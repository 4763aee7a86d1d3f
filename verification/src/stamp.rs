//! Fresh identifiers and timestamps.  Both come from the outside world (a
//! random number generator, the clock), so nothing useful can be promised
//! about their values; callers state what holds whatever comes back.

use vstd::prelude::*;

verus! {

/// Relies on uuid::Uuid::new_v4 and its Display form: a random version-4
/// UUID printed as 36 hyphenated lowercase characters.
#[verifier::external_body]
pub(crate) fn fresh_uuid() -> (r: String)
    ensures
        r@.len() == 36,
{
    uuid::Uuid::new_v4().to_string()
}

/// Relies on chrono::Utc::now and to_rfc3339: the current UTC time in
/// ISO-8601 / RFC 3339 form.  The clock decides the value, so nothing is
/// promised of it.
#[verifier::external_body]
pub(crate) fn now_rfc3339() -> (r: String) {
    chrono::Utc::now().to_rfc3339()
}

} // verus!
