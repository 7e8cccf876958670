//! Monotonic time, as nanoseconds since a starting instant.

use std::time::Instant;
use vstd::prelude::*;

verus! {

/// `std::time::Instant`, carried through without looking inside.
#[verifier::external_type_specification]
#[verifier::external_body]
pub struct ExInstant(Instant);

/// The current instant (`Instant::now`).
#[verifier::external_body]
pub(crate) fn instant_now() -> Instant {
    Instant::now()
}

/// Whole milliseconds elapsed since `t` (`t.elapsed().as_millis()`, cut to
/// 64 bits).  Depends on the time of the call; nothing is promised of it.
#[verifier::external_body]
pub(crate) fn elapsed_millis(t: &Instant) -> u64 {
    t.elapsed().as_millis() as u64
}

/// Nanoseconds elapsed since `t` (`t.elapsed().as_nanos()`, cut to 64 bits).
/// Depends on the time of the call; nothing is promised of it.
#[verifier::external_body]
fn elapsed_nanos(t: &Instant) -> u64 {
    t.elapsed().as_nanos() as u64
}

/// A monotonic clock reading nanoseconds since the moment it was started.
#[derive(Debug, Clone, Copy)]
pub struct Clock {
    origin: Instant,
}

impl Clock {
    /// A clock started now.  Its origin is the instant of the call, which no
    /// clause can state.
    pub fn start() -> Clock {
        Clock { origin: instant_now() }
    }

    /// Nanoseconds since the clock was started.  The reading depends on the
    /// time of the call, so no clause states it.
    pub fn now(&self) -> u64 {
        elapsed_nanos(&self.origin)
    }
}

/// Nanoseconds in a millisecond.
pub const NANOS_PER_MILLI: u64 = 1_000_000;

/// Whole milliseconds from `earlier` to `later` (both in nanoseconds), zero
/// when `later` is not after `earlier`: `Instant::duration_since(..).as_millis()`.
pub open spec fn millis_between(later: u64, earlier: u64) -> int {
    if later >= earlier {
        (later - earlier) / (NANOS_PER_MILLI as int)
    } else {
        0
    }
}

/// Executable `millis_between`.
pub fn millis_between_exec(later: u64, earlier: u64) -> (ms: u64)
    ensures
        ms == millis_between(later, earlier),
{
    if later >= earlier {
        (later - earlier) / NANOS_PER_MILLI
    } else {
        0
    }
}

} // verus!
