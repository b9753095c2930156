//! Durations as numbers of nanoseconds, and the wall clock.
use std::time::{Duration, SystemTime, UNIX_EPOCH};
use vstd::prelude::*;

verus! {

/// A point in wall-clock time (std's `SystemTime`), carried opaquely.
#[verifier::external_type_specification]
#[verifier::external_body]
pub struct ExSystemTime(SystemTime);

/// The number of nanoseconds in a second.
pub const NANOS_PER_SEC: u128 = 1_000_000_000;

/// The largest duration, in nanoseconds (`Duration::MAX`).
pub open spec fn max_duration_nanos() -> nat {
    0xffff_ffff_ffff_ffff * 1_000_000_000 + 999_999_999
}

/// The whole nanoseconds that `Duration::as_nanos` reports for `d`.
pub uninterp spec fn total_nanos(d: Duration) -> nat;

/// The whole nanoseconds in `d` (`Duration::as_nanos`).
///
/// Trusted: the result is `total_nanos(d)`, and no duration holds more than
/// `Duration::MAX`.
#[verifier::external_body]
pub(crate) fn duration_nanos(d: Duration) -> (n: u128)
    ensures
        n == total_nanos(d),
        n <= max_duration_nanos(),
{
    d.as_nanos()
}

/// The whole seconds in `d` (`Duration::as_secs`).
///
/// Trusted: the documentation gives it as the whole seconds of the duration.
#[verifier::external_body]
pub(crate) fn duration_secs(d: Duration) -> (s: u64)
    ensures
        s == total_nanos(d) / 1_000_000_000,
{
    d.as_secs()
}

/// The duration of `secs` seconds and `nanos` nanoseconds (`Duration::new`).
///
/// Trusted: with `nanos` under a second there is no carry, and the duration
/// holds exactly `secs * 10^9 + nanos` nanoseconds.
#[verifier::external_body]
pub(crate) fn duration_new(secs: u64, nanos: u32) -> (d: Duration)
    requires
        nanos < 1_000_000_000,
    ensures
        total_nanos(d) == secs * 1_000_000_000 + nanos,
{
    Duration::new(secs, nanos)
}

/// The duration of `n` nanoseconds.
pub fn duration_from_nanos(n: u128) -> (d: Duration)
    requires
        n <= max_duration_nanos(),
    ensures
        total_nanos(d) == n,
{
    let secs = n / NANOS_PER_SEC;
    let rest = n % NANOS_PER_SEC;
    assert(secs <= 0xffff_ffff_ffff_ffff) by (nonlinear_arith)
        requires n <= 0xffff_ffff_ffff_ffff * 1_000_000_000 + 999_999_999, secs == n / 1_000_000_000;
    assert(secs * 1_000_000_000 + rest == n) by (nonlinear_arith)
        requires secs == n / 1_000_000_000, rest == n % 1_000_000_000;
    duration_new(secs as u64, rest as u32)
}

/// The current wall-clock time (`SystemTime::now`).
#[verifier::external_body]
fn system_now() -> SystemTime {
    SystemTime::now()
}

/// The time from the Unix epoch to `t` (`SystemTime::duration_since`), or
/// `None` when `t` is earlier.
#[verifier::external_body]
fn since_unix_epoch(t: &SystemTime) -> Option<Duration> {
    t.duration_since(UNIX_EPOCH).ok()
}

/// Milliseconds in a reading of the time since the Unix epoch, truncated to
/// 64 bits; 0 for a clock set before the epoch (`None`).
pub fn unix_ms(elapsed: Option<Duration>) -> (r: u64)
    ensures
        r == unix_ms_of(elapsed),
{
    match elapsed {
        Some(d) => {
            let ms = duration_nanos(d) / 1_000_000;
            #[verifier::truncate]
            (ms as u64)
        },
        None => 0,
    }
}

/// Milliseconds since the Unix epoch (see `unix_ms`), read from the wall
/// clock. Which reading the clock gives is not stated.
pub fn now_unix_ms() -> (r: u64)
    ensures
        exists|elapsed: Option<Duration>| r == unix_ms_of(elapsed),
{
    let now = system_now();
    let elapsed = since_unix_epoch(&now);
    unix_ms(elapsed)
}

/// The milliseconds that `unix_ms` gives for a reading.
pub open spec fn unix_ms_of(elapsed: Option<Duration>) -> u64 {
    match elapsed {
        Some(d) => (total_nanos(d) / 1_000_000) as u64,
        None => 0,
    }
}

} // verus!
