//! Trusted boundary around the clock (the chrono crate).

use vstd::prelude::*;

verus! {

/// Relies on std::time::SystemTime::now and chrono's conversion from it: the
/// current moment as an ISO-8601 string, with a clock before the Unix epoch
/// still formatted rather than refused. The result depends on the clock, so
/// nothing is stated of it.
#[verifier::external_body]
pub(crate) fn now_rfc3339() -> (r: String) {
    chrono::DateTime::<chrono::Utc>::from(std::time::SystemTime::now()).to_rfc3339()
}

} // verus!
