use std::time::{SystemTime, UNIX_EPOCH};
use vstd::prelude::*;

verus! {

#[verifier::external_type_specification]
#[verifier::external_body]
pub struct ExSystemTime(std::time::SystemTime);

/// Relies on `SystemTime::now`: a reading of the system clock. Nothing is
/// known of its value.
#[verifier::external_body]
fn system_now() -> (r: SystemTime) {
    SystemTime::now()
}

/// Relies on `SystemTime::duration_since(UNIX_EPOCH)`, read in whole seconds:
/// `None` when the reading lies before the Unix epoch.
#[verifier::external_body]
fn seconds_since_epoch(t: &SystemTime) -> (r: Option<u64>) {
    match t.duration_since(UNIX_EPOCH) {
        Ok(d) => Some(d.as_secs()),
        Err(_) => None,
    }
}

/// The timestamp for a clock reading of `secs` whole seconds after the Unix
/// epoch (`None`: before it). Readings before the epoch count as the epoch;
/// readings past `i64::MAX` saturate.
pub open spec fn timestamp_of(secs: Option<u64>) -> i64 {
    match secs {
        Some(s) => if s > i64::MAX as u64 { i64::MAX } else { s as i64 },
        None => 0,
    }
}

/// Turns a clock reading, in whole seconds since the Unix epoch, into a
/// timestamp.
pub fn timestamp_from_seconds(secs: Option<u64>) -> (r: i64)
    ensures
        r == timestamp_of(secs),
        r >= 0,
{
    match secs {
        Some(s) => if s > i64::MAX as u64 {
            i64::MAX
        } else {
            s as i64
        },
        None => 0,
    }
}

/// The current time as a Unix timestamp in seconds.
pub fn get_unix_epoch() -> (r: i64)
    ensures
        r >= 0,
{
    let now = system_now();
    timestamp_from_seconds(seconds_since_epoch(&now))
}

} // verus!
