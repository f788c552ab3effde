//! Durations as hours, minutes and seconds.
use vstd::prelude::*;

verus! {

/// Seconds in `hours:minutes:seconds`.
pub open spec fn seconds_of(hours: u64, minutes: u64, seconds: u64) -> int {
    hours * 3600 + minutes * 60 + seconds
}

/// The duration, in seconds, of `hours:minutes:seconds`.
pub fn time_from_hms(hours: u64, minutes: u64, seconds: u64) -> (r: u64)
    requires
        seconds_of(hours, minutes, seconds) <= u64::MAX,
    ensures
        r == seconds_of(hours, minutes, seconds),
{
    hours * 3600 + minutes * 60 + seconds
}

/// A duration in seconds as whole hours, the minutes and the seconds left.
pub fn hms_from_duration(total_seconds: u64) -> (r: (u64, u64, u64))
    ensures
        r.0 == total_seconds / 3600,
        r.1 == (total_seconds % 3600) / 60,
        r.2 == total_seconds % 60,
        r.1 < 60 && r.2 < 60,
        seconds_of(r.0, r.1, r.2) == total_seconds,
{
    let hours = total_seconds / 3600;
    let minutes = (total_seconds % 3600) / 60;
    let seconds = total_seconds % 60;
    (hours, minutes, seconds)
}

/// Splitting a duration gives back the hours, minutes and seconds it was
/// made of, when minutes and seconds are below sixty.
pub proof fn lemma_hms_round_trip(hours: u64, minutes: u64, seconds: u64)
    requires
        minutes < 60,
        seconds < 60,
        seconds_of(hours, minutes, seconds) <= u64::MAX,
    ensures
        ({
            let t = seconds_of(hours, minutes, seconds);
            &&& t / 3600 == hours
            &&& (t % 3600) / 60 == minutes
            &&& t % 60 == seconds
        }),
{
    let t = seconds_of(hours, minutes, seconds);
    assert(t / 3600 == hours && (t % 3600) / 60 == minutes && t % 60 == seconds) by (nonlinear_arith)
        requires
            minutes < 60,
            seconds < 60,
            t == hours * 3600 + minutes * 60 + seconds,
            hours >= 0,
    ;
}

} // verus!
