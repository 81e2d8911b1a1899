//! The wall clock, behind trusted wrappers. Both results depend on the
//! moment of the call, so nothing is assumed of them; every caller states
//! what holds whatever value came back.

use vstd::prelude::*;

verus! {

/// Relies on chrono::Utc::now, rendered with `%Y-%m-%d %H:%M:%S`: the
/// current wall-clock time as text. Clock-dependent, so nothing is assumed
/// of the result.
#[verifier::external_body]
pub fn now_timestamp() -> String {
    chrono::Utc::now().format("%Y-%m-%d %H:%M:%S").to_string()
}

/// Relies on chrono::Utc::now and DateTime::timestamp_millis: milliseconds
/// since the Unix epoch. Clock-dependent, so nothing is assumed of the
/// result.
#[verifier::external_body]
pub fn now_unix_millis() -> i64 {
    chrono::Utc::now().timestamp_millis()
}

} // verus!
