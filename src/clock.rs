//! The wall clock.
use vstd::prelude::*;

verus! {

/// Relies on `time::OffsetDateTime::now_utc` and `OffsetDateTime::unix_timestamp`:
/// the current time as whole seconds since 1970-01-01 00:00 UTC. Nothing is
/// stated of the value, which is whatever the system clock reads.
#[verifier::external_body]
pub(crate) fn unix_now() -> (r: i64) {
    time::OffsetDateTime::now_utc().unix_timestamp()
}

} // verus!
