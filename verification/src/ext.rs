//! Trusted boundary to the outside crates and to std: identifier generation,
//! the wall clock, string-slice comparison, and the opaque JSON payload type.

use vstd::prelude::*;

verus! {

/// `serde_json::Value`, carried opaquely as a response payload. The core
/// never inspects it; handlers and the transport layer own its contents.
#[verifier::external_type_specification]
#[verifier::external_body]
pub struct ExValue(serde_json::Value);

/// Relies on `uuid::Uuid::new_v4` and its `Display` form: a freshly drawn
/// random version-4 identifier, rendered as the 36-character hyphenated
/// lower-case form. The value is random, so only its length is stated.
#[verifier::external_body]
pub(crate) fn fresh_key() -> (r: String)
    ensures
        r@.len() == 36,
{
    uuid::Uuid::new_v4().to_string()
}

/// Relies on `chrono::Utc::now` and `DateTime::timestamp`: the wall-clock
/// time as whole seconds since the Unix epoch. The clock is outside the
/// program, so nothing is promised of the value.
#[verifier::external_body]
pub(crate) fn now_timestamp() -> i64 {
    chrono::Utc::now().timestamp()
}

/// Relies on `str`'s `PartialEq`: two string slices compare equal exactly
/// when their character contents are equal.
#[verifier::external_body]
pub(crate) fn str_eq(a: &str, b: &str) -> (r: bool)
    ensures
        r == (a@ == b@),
{
    a == b
}

} // verus!
