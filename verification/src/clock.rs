//! The system clock. A reading is a value of its own type, made only here
//! from the clock itself, so what the library says was issued "now" is
//! tied to a reading actually taken.
use vstd::prelude::*;
use crate::auth::clock_range;

verus! {

/// A reading of the system clock: whole seconds since the Unix epoch and
/// the nanoseconds past them. Only [`utc_now`] makes one.
pub struct UtcInstant {
    secs: i64,
    nanos: u32,
}

impl UtcInstant {
    /// The reading's whole seconds since the Unix epoch.
    pub closed spec fn spec_secs(self) -> i64 {
        self.secs
    }

    /// The reading's nanoseconds past its whole second.
    pub closed spec fn spec_nanos(self) -> u32 {
        self.nanos
    }

    pub fn secs(&self) -> (r: i64)
        ensures
            r == self.spec_secs(),
    {
        self.secs
    }

    pub fn subsec_nanos(&self) -> (r: u32)
        ensures
            r == self.spec_nanos(),
    {
        self.nanos
    }
}

/// `secs` and `nanos` are those of one reading of the clock.
pub open spec fn is_clock_reading(secs: i64, nanos: u32) -> bool {
    exists|i: UtcInstant| #[trigger] i.spec_secs() == secs && i.spec_nanos() == nanos && clock_range(secs)
}

/// `Utc::now()`: a reading of the system clock, as its `timestamp()` and
/// its `timestamp_subsec_nanos()`. Of the reading only its range is
/// claimed.
#[verifier::external_body]
pub(crate) fn utc_now() -> (r: UtcInstant)
    ensures
        clock_range(r.spec_secs()),
        r.spec_nanos() < 1_000_000_000,
{
    let now = chrono::Utc::now();
    UtcInstant { secs: now.timestamp(), nanos: now.timestamp_subsec_nanos() }
}

} // verus!
