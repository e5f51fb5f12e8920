//! Reading the system clock as whole seconds since the Unix epoch.

use vstd::prelude::*;

verus! {

#[verifier::external_type_specification]
#[verifier::external_body]
pub struct ExSystemTime(std::time::SystemTime);

#[verifier::external_type_specification]
#[verifier::external_body]
pub struct ExSystemTimeError(std::time::SystemTimeError);

/// `SystemTime::now`; nothing is stated of the time it reads.
#[verifier::external_body]
fn system_now() -> std::time::SystemTime {
    std::time::SystemTime::now()
}

/// `SystemTime::duration_since(UNIX_EPOCH)`; it fails for a time before the
/// epoch. Nothing is stated of the duration.
#[verifier::external_body]
fn since_epoch(t: &std::time::SystemTime) -> Result<core::time::Duration, std::time::SystemTimeError> {
    t.duration_since(std::time::UNIX_EPOCH)
}

/// `Duration::as_secs`; nothing is stated of the count.
#[verifier::external_body]
fn whole_seconds(d: &core::time::Duration) -> u64 {
    d.as_secs()
}

/// Whole seconds since the Unix epoch, or `None` when the clock reads a time
/// before it.
pub fn clock_seconds() -> Option<u64> {
    let now = system_now();
    match since_epoch(&now) {
        Ok(d) => Some(whole_seconds(&d)),
        Err(_) => None,
    }
}

/// A clock reading in Unix seconds as a signed count: a reading before the
/// epoch (`None`) counts as 0, and a reading beyond what `i64` holds as
/// `i64::MAX`.
pub open spec fn unix_seconds_of(reading: Option<u64>) -> int {
    match reading {
        Some(s) => if s <= i64::MAX { s as int } else { i64::MAX as int },
        None => 0,
    }
}

pub fn unix_seconds(reading: Option<u64>) -> (r: i64)
    ensures
        r == unix_seconds_of(reading),
{
    match reading {
        Some(s) => if s <= i64::MAX as u64 { s as i64 } else { i64::MAX },
        None => 0,
    }
}

/// The current time in Unix seconds; never negative, and a clock set before
/// 1970 reads as 0.
pub fn now_unix() -> (r: i64)
    ensures
        0 <= r,
        exists|reading: Option<u64>| r == unix_seconds_of(reading),
{
    let reading = clock_seconds();
    let r = unix_seconds(reading);
    assert(r == unix_seconds_of(reading));
    r
}

} // verus!
