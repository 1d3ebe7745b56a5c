//! Wall-clock readings: seconds and milliseconds since the Unix epoch,
//! with a clock that reads before the epoch taken as zero.

use vstd::prelude::*;

verus! {

#[verifier::external_type_specification]
#[verifier::external_body]
pub struct ExSystemTime(std::time::SystemTime);

/// Read the system clock. Calls `std::time::SystemTime::now`; nothing is
/// stated of the reading.
#[verifier::external_body]
fn system_now() -> std::time::SystemTime {
    std::time::SystemTime::now()
}

/// The time elapsed from the Unix epoch to `t`, `None` when `t` is before
/// the epoch. Calls `SystemTime::duration_since(UNIX_EPOCH)`; nothing is
/// stated of the duration.
#[verifier::external_body]
fn since_unix_epoch(t: &std::time::SystemTime) -> Option<core::time::Duration> {
    match t.duration_since(std::time::UNIX_EPOCH) {
        Ok(d) => Some(d),
        Err(_) => None,
    }
}

/// Whole seconds of a duration. Calls `Duration::as_secs`; nothing is
/// stated of the value.
#[verifier::external_body]
fn duration_secs(d: &core::time::Duration) -> u64 {
    d.as_secs()
}

/// Whole milliseconds of a duration. Calls `Duration::as_millis`; nothing
/// is stated of the value.
#[verifier::external_body]
fn duration_millis(d: &core::time::Duration) -> u128 {
    d.as_millis()
}

/// Seconds since the epoch from an elapsed reading: zero for a clock
/// before the epoch.
pub fn secs_or_zero(elapsed_secs: Option<u64>) -> (s: u64)
    ensures
        s == match elapsed_secs {
            Some(x) => x,
            None => 0,
        },
{
    match elapsed_secs {
        Some(x) => x,
        None => 0,
    }
}

/// Milliseconds since the epoch from an elapsed reading: zero for a clock
/// before the epoch, saturated at `u64::MAX`.
pub fn millis_saturating(elapsed_ms: Option<u128>) -> (m: u64)
    ensures
        m == match elapsed_ms {
            Some(x) => if x > u64::MAX {
                u64::MAX
            } else {
                x as u64
            },
            None => 0,
        },
{
    match elapsed_ms {
        Some(x) => if x > u64::MAX as u128 {
            u64::MAX
        } else {
            x as u64
        },
        None => 0,
    }
}

/// The wall clock in whole seconds since the Unix epoch (zero for a clock
/// before the epoch).
pub fn now_unix_secs() -> u64 {
    let now = system_now();
    let elapsed = match since_unix_epoch(&now) {
        Some(d) => Some(duration_secs(&d)),
        None => None,
    };
    secs_or_zero(elapsed)
}

/// The wall clock in milliseconds since the Unix epoch, the physical clock
/// of the sync-session hybrid logical clock (zero for a clock before the
/// epoch, saturated at `u64::MAX`).
pub fn system_time_ms_for_atrium_hlc() -> u64 {
    let now = system_now();
    let elapsed = match since_unix_epoch(&now) {
        Some(d) => Some(duration_millis(&d)),
        None => None,
    };
    millis_saturating(elapsed)
}

} // verus!
