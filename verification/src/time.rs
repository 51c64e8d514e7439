//! The time capability: a source of "now" as milliseconds since the Unix
//! epoch, injected by the caller so that signing and verification never read
//! a global clock themselves.

use vstd::prelude::*;

verus! {

/// Where a [`Time`] gets its readings from.
#[derive(Clone, Debug)]
enum TimeSource {
    /// Every reading returns this fixed value.
    Fixed(u64),
    /// Readings come from the system clock.
    System,
}

/// A source of UTC time expressed as milliseconds since the Unix epoch.
///
/// A fixed source makes signing and verification fully deterministic and is
/// what tests use; the system source reads the real clock.
#[derive(Clone, Debug)]
pub struct Time {
    source: TimeSource,
}

impl Time {
    /// Whether every reading of this source returns one fixed value.
    pub closed spec fn is_fixed(&self) -> bool {
        self.source is Fixed
    }

    /// The value a fixed source returns.
    pub closed spec fn fixed_millis(&self) -> u64 {
        self.source->Fixed_0
    }

    /// A source whose every reading is `millis`.
    pub fn new(millis: u64) -> (r: Time)
        ensures
            r.is_fixed(),
            r.fixed_millis() == millis,
    {
        Time { source: TimeSource::Fixed(millis) }
    }

    /// A source that reads the system clock on every reading.
    pub fn system_time() -> (r: Time)
        ensures
            !r.is_fixed(),
    {
        Time { source: TimeSource::System }
    }

    /// One reading: UTC time as milliseconds since the Unix epoch, or the
    /// fixed value for a fixed source.
    pub fn time(&self) -> (r: u64)
        ensures
            self.is_fixed() ==> r == self.fixed_millis(),
    {
        match &self.source {
            TimeSource::Fixed(millis) => *millis,
            TimeSource::System => current_millis(),
        }
    }
}

impl Default for Time {
    /// The default source reads the system clock.
    fn default() -> (r: Time)
        ensures
            !r.is_fixed(),
    {
        Time::system_time()
    }
}

/// The time source a driver is configured with: the same capability as
/// [`Time`], under the name the driver builders use.
pub type GetTimestamp = Time;

/// Relies on `std::time::SystemTime::now`: the wall clock, as milliseconds
/// since the Unix epoch. Nothing can be promised of its value. Panics only if
/// the clock reads before the epoch or past the range of `u64` milliseconds.
#[verifier::external_body]
fn current_millis() -> u64 {
    let elapsed = std::time::SystemTime::now()
        .duration_since(std::time::UNIX_EPOCH)
        .expect("system clock reads before the Unix epoch");
    u64::try_from(elapsed.as_millis()).expect("system clock out of range")
}

} // verus!
