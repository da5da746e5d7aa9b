//! The wall clock, read through the standard library and `chrono`.

use vstd::prelude::*;

verus! {

/// `SystemTime::elapsed` of the standard library, taken on `UNIX_EPOCH`:
/// the whole seconds from the Unix epoch to now, or `None` where the clock
/// stands before the epoch. Nothing is claimed of the value: it is the
/// machine's time.
#[verifier::external_body]
pub(crate) fn unix_seconds_now() -> (r: Option<u64>) {
    match std::time::UNIX_EPOCH.elapsed() {
        Ok(since) => Some(since.as_secs()),
        Err(_) => None,
    }
}

/// `chrono::Utc::now` followed by `DateTime::timestamp`: the current time
/// in seconds since the Unix epoch. Nothing is claimed of the value.
/// `chrono` does not return where the clock stands before the epoch.
#[verifier::external_body]
pub(crate) fn utc_timestamp_now() -> (r: i64) {
    chrono::Utc::now().timestamp()
}

/// `chrono::Utc::now` followed by `DateTime::to_rfc3339`: the current time
/// as an RFC 3339 text. Nothing is claimed of the value. `chrono` does not
/// return where the clock stands before the epoch.
#[verifier::external_body]
pub(crate) fn utc_rfc3339_now() -> (r: String) {
    chrono::Utc::now().to_rfc3339()
}

} // verus!
