//! The pace of a background poller.
use std::time::Duration;
use vstd::prelude::*;
use crate::clock::{duration_from_nanos, duration_nanos, max_duration_nanos, total_nanos};

verus! {

/// The wait before the next poll: back to `base` after a changed result,
/// else double the last wait (saturating at the largest duration), never
/// beyond `cap`.
pub fn next_wait(dirty: bool, wait: Duration, base: Duration, cap: Duration) -> (r: Duration)
    ensures
        dirty ==> r == base,
        !dirty ==> total_nanos(r) == (if total_nanos(cap) <= 2 * total_nanos(wait) && total_nanos(cap) <= max_duration_nanos() {
            total_nanos(cap)
        } else if 2 * total_nanos(wait) <= max_duration_nanos() {
            2 * total_nanos(wait)
        } else {
            max_duration_nanos()
        }),
{
    if dirty {
        return base;
    }
    let w = duration_nanos(wait);
    let c = duration_nanos(cap);
    let max: u128 = 0xffff_ffff_ffff_ffff * 1_000_000_000 + 999_999_999;
    let doubled = if w <= max / 2 { 2 * w } else { max };
    assert(2 * w <= max ==> doubled == 2 * w);
    let n = if c <= doubled { c } else { doubled };
    duration_from_nanos(n)
}


/// A poller's latest value: the newest of the values that arrived since the
/// last look, or none when nothing arrived.
pub fn newest<T>(received: Vec<T>) -> (r: Option<T>)
    ensures
        r == (if received@.len() > 0 { Some(received@.last()) } else { None::<T> }),
{
    let mut received = received;
    received.pop()
}

} // verus!
