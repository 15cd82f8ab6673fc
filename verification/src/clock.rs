//! Readings of the wall clock. What they return depends on the moment of
//! the call, so nothing is promised of the values; every function that
//! works with a reading takes it as an argument and is verified for every
//! value of it.

use vstd::prelude::*;

verus! {

/// Relies on `chrono::Utc::now`: the current time, as whole seconds since
/// the Unix epoch.
#[verifier::external_body]
pub(crate) fn now_unix_seconds() -> i64 {
    chrono::Utc::now().timestamp()
}

/// Relies on `chrono::Utc::now`: the current time, as milliseconds since
/// the Unix epoch.
#[verifier::external_body]
pub(crate) fn now_unix_millis() -> i64 {
    chrono::Utc::now().timestamp_millis()
}

} // verus!
