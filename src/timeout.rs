//! Conversion of a wait timeout into the seconds and microseconds that the
//! readiness wait takes.
use vstd::prelude::*;

verus! {

/// A timeout as the readiness wait takes it.
#[derive(Clone, Copy, Debug, PartialEq, Eq, Structural)]
pub struct TimeVal {
    pub sec: libc::time_t,
    pub usec: libc::suseconds_t,
}

/// The largest number of seconds that the platform's `time_t` holds.
pub open spec fn max_seconds() -> int {
    libc::time_t::MAX as int
}

/// Converts a duration, given as whole seconds and the nanoseconds of the
/// last second, into seconds and microseconds. Seconds beyond what
/// `time_t` holds are clamped to its maximum.
pub fn to_timeval(secs: u64, nanos: u32) -> (r: TimeVal)
    ensures
        r.sec as int == (if secs as int > max_seconds() { max_seconds() } else { secs as int }),
        r.usec as int == nanos as int / 1000,
{
    let sec: libc::time_t = if secs > libc::time_t::MAX as u64 {
        libc::time_t::MAX
    } else {
        secs as libc::time_t
    };
    TimeVal { sec, usec: nanos as libc::suseconds_t / 1000 }
}

} // verus!
