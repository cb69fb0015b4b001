//! The wall clock.

use vstd::prelude::*;

verus! {

/// `chrono::Utc::now` followed by `DateTime::timestamp`: the current time in
/// whole seconds since the epoch. Nothing is claimed of the value, and two
/// calls may differ. chrono stops the program where the system clock stands
/// before the epoch.
#[verifier::external_body]
pub(crate) fn unix_now() -> (now: i64) {
    chrono::Utc::now().timestamp()
}

} // verus!
