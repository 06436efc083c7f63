//! The wall clock, read through `chrono`.

use vstd::prelude::*;

verus! {

/// Calls `chrono::Utc::now` and hands the instant back as milliseconds since
/// the Unix epoch (`DateTime::timestamp_millis`). Nothing is promised of the
/// value: it is the machine's clock. `chrono` panics where that clock stands
/// before 1970.
#[verifier::external_body]
pub(crate) fn utc_now_millis() -> (millis: i64) {
    chrono::Utc::now().timestamp_millis()
}

} // verus!
