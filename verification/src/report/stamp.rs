//! Identifiers and instants that come from outside the engine.

use vstd::prelude::*;

verus! {

/// Calls `uuid::Uuid::new_v4` and writes the identifier with `to_string`,
/// which gives the hyphenated lower-case form: 36 characters whatever the
/// random bits are. Nothing else is claimed of the result. `new_v4` panics
/// where the operating system hands out no random bytes.
#[verifier::external_body]
pub(crate) fn fresh_report_id() -> (r: String)
    ensures
        r@.len() == 36,
{
    uuid::Uuid::new_v4().to_string()
}

/// Calls `chrono::Utc::now` and writes the instant with
/// `DateTime::to_rfc3339`. The result depends on the clock, so nothing is
/// claimed of it. `Utc::now` panics where the system clock is set before
/// 1970.
#[verifier::external_body]
pub(crate) fn now_rfc3339() -> (r: String) {
    chrono::Utc::now().to_rfc3339()
}

} // verus!
