//! The wall-clock time stamp written into the state file.
use vstd::prelude::*;

verus! {

/// `std::time::SystemTime`, carried from the clock to the subtraction below.
#[verifier::external_type_specification]
#[verifier::external_body]
pub struct ExSystemTime(std::time::SystemTime);

/// Calls `SystemTime::now`. Nothing is claimed of the time it reads.
#[verifier::external_body]
fn system_time_now() -> std::time::SystemTime {
    std::time::SystemTime::now()
}

/// Calls `SystemTime::duration_since` with `UNIX_EPOCH`, giving nothing when the clock
/// reads a time before the epoch. Nothing is claimed of the duration.
#[verifier::external_body]
fn since_unix_epoch(now: &std::time::SystemTime) -> Option<std::time::Duration> {
    now.duration_since(std::time::UNIX_EPOCH).ok()
}

/// Calls `Duration::as_millis`. Nothing is claimed: a `Duration` has no model here.
#[verifier::external_body]
fn duration_millis(duration: &std::time::Duration) -> u128 {
    duration.as_millis()
}

/// A count of milliseconds since the epoch as a `u64`: saturated at `u64::MAX`, and zero
/// when the clock stands before the epoch.
pub open spec fn unix_ms(elapsed_millis: Option<u128>) -> u64 {
    match elapsed_millis {
        Some(ms) => if ms > u64::MAX {
            u64::MAX
        } else {
            ms as u64
        },
        None => 0,
    }
}

/// Converts the milliseconds elapsed since the epoch, if the clock is past it.
pub fn unix_ms_from_elapsed(elapsed_millis: Option<u128>) -> (res: u64)
    ensures
        res == unix_ms(elapsed_millis),
{
    match elapsed_millis {
        Some(ms) => {
            if ms > u64::MAX as u128 {
                u64::MAX
            } else {
                ms as u64
            }
        },
        None => 0,
    }
}

/// Milliseconds since the Unix epoch by the system clock (zero before the epoch).
/// The clock is read from outside: no value is promised.
pub fn current_unix_ms() -> u64 {
    let now = system_time_now();
    let elapsed = match since_unix_epoch(&now) {
        Some(duration) => Some(duration_millis(&duration)),
        None => None,
    };
    unix_ms_from_elapsed(elapsed)
}

} // verus!
