//! The wall clock.
use vstd::prelude::*;

verus! {

/// The current time in seconds since the Unix epoch.
///
/// Calls `chrono::Utc::now().timestamp()`. Nothing is stated of the result:
/// it depends on when the call is made.
#[verifier::external_body]
pub fn now_timestamp() -> i64 {
    chrono::Utc::now().timestamp()
}

} // verus!
