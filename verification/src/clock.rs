//! The clock.

use vstd::prelude::*;
use chrono::Utc;

verus! {

/// The current time in whole seconds since the epoch.
///
/// Calls chrono's `Utc::now` and `timestamp` on what it gives. The clock
/// decides the result, so nothing is claimed of it. chrono stops the program
/// where the system clock stands before the epoch.
#[verifier::external_body]
pub(crate) fn unix_now() -> i64 {
    Utc::now().timestamp()
}

} // verus!
