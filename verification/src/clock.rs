//! The two clocks: the wall clock, whose readings travel in messages, and the
//! monotonic clock, by which round trips and silences are measured.

use std::time::{Instant, SystemTime, UNIX_EPOCH};
use vstd::prelude::*;

verus! {

/// The number of nanoseconds in a millisecond.
pub const NANOS_PER_MILLI: u64 = 1_000_000;

/// A point of the monotonic clock. Nothing of its inside is known here.
#[verifier::external_type_specification]
#[verifier::external_body]
pub struct ExInstant(Instant);

/// `SystemTime::now`, as milliseconds since the Unix epoch (zero for a clock
/// set before the epoch). Nothing is claimed of the reading.
#[verifier::external_body]
pub fn current_time_ms() -> u64 {
    SystemTime::now().duration_since(UNIX_EPOCH).unwrap_or_default().as_millis() as u64
}

/// `Instant::now`: the present point of the monotonic clock.
#[verifier::external_body]
fn monotonic_origin() -> Instant {
    Instant::now()
}

/// `Instant::elapsed`, in nanoseconds: the time since `origin` on the
/// monotonic clock. Nothing is claimed of the reading.
#[verifier::external_body]
fn nanos_since(origin: &Instant) -> u64 {
    origin.elapsed().as_nanos() as u64
}

/// A monotonic clock that counts nanoseconds from the moment it was
/// started. Copies of one clock agree.
#[derive(Debug, Clone, Copy)]
pub struct MonotonicClock {
    origin: Instant,
}

impl MonotonicClock {
    /// A clock that starts now.
    pub fn start() -> MonotonicClock {
        MonotonicClock { origin: monotonic_origin() }
    }

    /// The nanoseconds since the clock was started. Readings depend on the
    /// moment: nothing is promised of them.
    pub fn now_ns(&self) -> u64 {
        nanos_since(&self.origin)
    }
}

/// The nanoseconds from `earlier` to `later`, zero where `later` is not
/// later.
pub open spec fn elapsed_ns(earlier: u64, later: u64) -> nat {
    if later >= earlier {
        (later - earlier) as nat
    } else {
        0
    }
}

/// The nanoseconds from `earlier` to `later`, zero where `later` is not
/// later.
pub fn elapsed_between(earlier: u64, later: u64) -> (elapsed: u64)
    ensures
        elapsed == elapsed_ns(earlier, later),
{
    if later >= earlier {
        later - earlier
    } else {
        0
    }
}

} // verus!
