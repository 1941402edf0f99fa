//! Points in time, absolute or relative to now.
use vstd::prelude::*;

verus! {

/// A span of time: whole seconds and the nanoseconds beyond them.
#[derive(Debug, Clone, Copy, PartialEq, Eq, Structural, PartialOrd, Ord, Hash)]
pub struct Duration {
    pub secs: u64,
    pub nanos: u32,
}

impl Duration {
    pub open spec fn well_formed(&self) -> bool {
        self.nanos < 1_000_000_000
    }

    /// The span in nanoseconds.
    pub open spec fn total_nanos(&self) -> int {
        self.secs * 1_000_000_000 + self.nanos
    }

    /// The sum of two spans; the seconds must not overflow.
    pub fn add(self, other: Duration) -> (r: Duration)
        requires
            self.well_formed(),
            other.well_formed(),
            self.secs + other.secs + (if self.nanos + other.nanos >= 1_000_000_000 { 1int } else { 0 })
                <= u64::MAX,
        ensures
            r.well_formed(),
            r.total_nanos() == self.total_nanos() + other.total_nanos(),
    {
        let nanos = self.nanos + other.nanos;
        if nanos >= 1_000_000_000 {
            Duration { secs: self.secs + other.secs + 1, nanos: nanos - 1_000_000_000 }
        } else {
            Duration { secs: self.secs + other.secs, nanos }
        }
    }
}

/// A point in time.
#[derive(Debug, Clone, Copy, PartialEq, Eq, Structural, PartialOrd, Ord, Hash)]
pub enum TimeArg {
    /// Duration elapsed since UNIX_EPOCH
    Absolute(Duration),
    /// Duration from now
    Relative(Duration),
}

impl TimeArg {
    /// The point as a duration since the UNIX epoch, `now` being one too.
    pub fn to_absolute(&self, now: Duration) -> (r: Duration)
        requires
            now.well_formed(),
            match *self {
                TimeArg::Absolute(_) => true,
                TimeArg::Relative(d) => d.well_formed() && now.secs + d.secs + (if now.nanos + d.nanos
                    >= 1_000_000_000 {
                    1int
                } else {
                    0
                }) <= u64::MAX,
            },
        ensures
            match *self {
                TimeArg::Absolute(d) => r == d,
                TimeArg::Relative(d) => r.well_formed() && r.total_nanos() == now.total_nanos()
                    + d.total_nanos(),
            },
    {
        match *self {
            TimeArg::Absolute(d) => d,
            TimeArg::Relative(d) => now.add(d),
        }
    }
}

/// The time elapsed since the UNIX epoch, read from the system clock
/// (`SystemTime::now` and `duration_since` of std): `None` when the clock
/// is set before 1970. Nothing is claimed of the value but that its
/// nanoseconds stay below a second.
#[verifier::external_body]
pub fn elapsed_since_epoch() -> (r: Option<Duration>)
    ensures
        r matches Some(d) ==> d.well_formed(),
{
    match std::time::SystemTime::now().duration_since(std::time::SystemTime::UNIX_EPOCH) {
        Ok(d) => Some(Duration { secs: d.as_secs(), nanos: d.subsec_nanos() }),
        Err(_) => None,
    }
}

} // verus!
