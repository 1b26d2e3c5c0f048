//! The system clock.

use vstd::prelude::*;

verus! {

/// `chrono::Utc::now().timestamp()`: the seconds since the Unix epoch on the
/// system clock. Nothing is claimed of the value: two readings may differ
/// either way.
#[verifier::external_body]
pub(crate) fn unix_now() -> i64 {
    chrono::Utc::now().timestamp()
}

} // verus!
