//! The system clock, read as time since the Unix epoch.

use vstd::prelude::*;

verus! {

/// `std::time::SystemTime`, carried through as it is.
#[verifier::external_type_specification]
#[verifier::external_body]
pub struct ExSystemTime(std::time::SystemTime);

/// The system clock now, by `std::time::SystemTime::now`. Nothing is
/// claimed of the value: it is whatever the clock says.
#[verifier::external_body]
fn now_time() -> std::time::SystemTime {
    std::time::SystemTime::now()
}

/// How far `t` lies from the Unix epoch, in whole milliseconds, by
/// `SystemTime::duration_since(UNIX_EPOCH)`: `Ok` with the time since the
/// epoch, or, for a time before it, `Err` with how far before it lies (the
/// duration its error carries). Nothing is claimed of the values: the
/// time is opaque here.
#[verifier::external_body]
fn millis_since_epoch(t: std::time::SystemTime) -> Result<u128, u128> {
    match t.duration_since(std::time::UNIX_EPOCH) {
        Ok(d) => Ok(d.as_millis()),
        Err(e) => Err(e.duration().as_millis()),
    }
}

/// Milliseconds since the Unix epoch by the system clock, or `None` when the
/// clock is set before the epoch.
pub(crate) fn epoch_millis() -> Option<u128> {
    match millis_since_epoch(now_time()) {
        Ok(ms) => Some(ms),
        Err(_) => None,
    }
}

/// Whole seconds since the Unix epoch, or `None` before it.
pub(crate) fn epoch_secs() -> Option<u64> {
    match epoch_millis() {
        Some(ms) => Some((ms / 1000) as u64),
        None => None,
    }
}

/// Whole seconds since the Unix epoch by the system clock, rounded toward
/// the past: negative when the clock is set before the epoch, and held to
/// the range of `i64`.
pub(crate) fn utc_now_seconds() -> i64 {
    match millis_since_epoch(now_time()) {
        Ok(ms) => {
            let s = ms / 1000;
            if s <= 9223372036854775807u128 {
                s as i64
            } else {
                i64::MAX
            }
        },
        Err(ms) => {
            let s: u128 = if ms % 1000 == 0 {
                ms / 1000
            } else {
                ms / 1000 + 1
            };
            if s <= 9223372036854775807u128 {
                0 - (s as i64)
            } else {
                i64::MIN
            }
        },
    }
}

/// Milliseconds since the Unix epoch by the system clock, rounded toward
/// the past: negative when the clock is set before the epoch, and held to
/// the range of `i64`.
pub(crate) fn utc_now_millis() -> i64 {
    match millis_since_epoch(now_time()) {
        Ok(ms) => {
            if ms <= 9223372036854775807u128 {
                ms as i64
            } else {
                i64::MAX
            }
        },
        Err(ms) => {
            if ms <= 9223372036854775807u128 {
                0 - (ms as i64)
            } else {
                i64::MIN
            }
        },
    }
}

} // verus!
