//! The wall clock.

use vstd::prelude::*;

verus! {

/// Reads the clock with `time::OffsetDateTime::now_utc` and hands out its
/// `unix_timestamp`: whole seconds since the Unix epoch. Nothing is
/// promised of the value; two readings may differ in either direction.
#[verifier::external_body]
pub(crate) fn unix_now() -> i64 {
    time::OffsetDateTime::now_utc().unix_timestamp()
}

} // verus!
