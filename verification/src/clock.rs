//! The clock. Everything that depends on time takes the instant as an
//! argument; the functions that are named `.._now` read it here.

use vstd::prelude::*;

verus! {

/// Reads the clock as seconds since the Unix epoch, through
/// `chrono::Utc::now` and `DateTime::timestamp`. Nothing is claimed of the
/// result. `Utc::now` panics on a clock set before the epoch.
#[verifier::external_body]
pub(crate) fn unix_now() -> i64 {
    chrono::Utc::now().timestamp()
}

} // verus!
