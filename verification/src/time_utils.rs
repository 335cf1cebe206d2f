//! Wall-clock access for row timestamps.
use vstd::prelude::*;

verus! {

/// Relies on time::OffsetDateTime::now_utc: the current wall-clock time
/// as a unix timestamp; nothing is assumed of the value.
#[verifier::external_body]
pub fn get_now_timestamp() -> i64 {
    time::OffsetDateTime::now_utc().unix_timestamp()
}

} // verus!
