//! The wall clock, in nanoseconds.
use vstd::prelude::*;

verus! {

/// A point in time on the system clock.
#[verifier::external_type_specification]
#[verifier::external_body]
pub struct ExSystemTime(std::time::SystemTime);

/// A system time before the UNIX epoch.
#[verifier::external_type_specification]
#[verifier::external_body]
pub struct ExSystemTimeError(std::time::SystemTimeError);

/// Calls `std::time::SystemTime::now`. Nothing is stated of the result: it
/// depends on when the call is made.
#[verifier::external_body]
fn system_now() -> std::time::SystemTime {
    std::time::SystemTime::now()
}

/// Calls `SystemTime::duration_since` with the UNIX epoch: the time since
/// the epoch, or an error for a time before it. Nothing is stated of which.
#[verifier::external_body]
fn since_unix_epoch(t: &std::time::SystemTime) -> Result<std::time::Duration, std::time::SystemTimeError> {
    t.duration_since(std::time::UNIX_EPOCH)
}

/// Calls `Duration::as_nanos`: the whole nanoseconds of the duration.
/// Nothing is stated of the value, as `Duration` is opaque here.
#[verifier::external_body]
fn duration_as_nanos(d: &std::time::Duration) -> u128 {
    d.as_nanos()
}

/// The time since the UNIX epoch in nanoseconds, saturating at the largest
/// `u64`; 0 for a clock set before the epoch. Nothing more is stated: it
/// depends on when the call is made.
pub fn now_nanos() -> u64 {
    match since_unix_epoch(&system_now()) {
        Ok(d) => {
            let n = duration_as_nanos(&d);
            if n > u64::MAX as u128 {
                u64::MAX
            } else {
                n as u64
            }
        },
        Err(_) => 0,
    }
}

/// The time from `earlier` to `later`, or zero when `later` comes first.
pub open spec fn elapsed(earlier: u64, later: u64) -> u64 {
    if later >= earlier {
        (later - earlier) as u64
    } else {
        0
    }
}

/// The time from `earlier` to `later`, or zero when `later` comes first.
pub fn elapsed_exec(earlier: u64, later: u64) -> (r: u64)
    ensures
        r == elapsed(earlier, later),
{
    if later >= earlier {
        later - earlier
    } else {
        0
    }
}

} // verus!
