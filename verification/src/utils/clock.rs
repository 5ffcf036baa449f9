//! The time of day.

use vstd::prelude::*;

verus! {

/// `chrono::Utc::now().timestamp()`: the system clock's time in whole
/// seconds since the Unix epoch.  Nothing is claimed of the number.  It
/// panics where the system clock stands before the epoch.
#[verifier::external_body]
pub(crate) fn now_timestamp() -> (r: i64) {
    chrono::Utc::now().timestamp()
}

} // verus!
