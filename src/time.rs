use std::time::Duration;
use vstd::prelude::*;

verus! {

/// Number of 100 ns hardware clock ticks in one second.
pub const TICKS_PER_SECOND: u64 = 10_000_000;

/// The span of `secs` seconds and `nanos` nanoseconds.
pub uninterp spec fn duration_of(secs: u64, nanos: u32) -> Duration;

/// Relies on `Duration::new`: it builds the span of `secs` seconds and `nanos`
/// nanoseconds, and panics only when `nanos` carries past `u64::MAX` seconds,
/// which a value under one second never does.
#[verifier::external_body]
fn duration_new(secs: u64, nanos: u32) -> (r: Duration)
    requires
        nanos < 1_000_000_000,
    ensures
        r == duration_of(secs, nanos),
{
    Duration::new(secs, nanos)
}

/// The span covered by `ticks` hardware clock ticks of 100 ns each.
pub open spec fn ticks_duration(ticks: u64) -> Duration {
    duration_of(ticks / TICKS_PER_SECOND, ((ticks % TICKS_PER_SECOND) * 100) as u32)
}

/// Converts a count of 100 ns ticks into a `Duration`, exactly and without overflow.
pub fn duration_from_ticks(ticks: u64) -> (r: Duration)
    ensures
        r == ticks_duration(ticks),
{
    let secs = ticks / TICKS_PER_SECOND;
    let nanos = ((ticks % TICKS_PER_SECOND) * 100) as u32;
    duration_new(secs, nanos)
}

} // verus!
