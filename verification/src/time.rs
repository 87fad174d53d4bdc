//! Monotonic timestamps and durations in nanoseconds.

use vstd::prelude::*;

verus! {

/// High-precision timestamp in nanoseconds since the Unix epoch.
#[derive(Debug, Clone, Copy, PartialEq, Eq, PartialOrd, Ord, Hash, Structural)]
pub struct Timestamp(pub u64);

impl Timestamp {
    /// Create a timestamp from nanoseconds since the Unix epoch.
    pub fn new(nanos: u64) -> (r: Self)
        ensures
            r.0 == nanos,
    {
        Self(nanos)
    }

    /// The current wall-clock time.
    pub fn now() -> Self {
        Self(current_time_nanos())
    }

    /// The raw nanoseconds value.
    pub fn nanos(&self) -> (r: u64)
        ensures
            r == self.0,
    {
        self.0
    }

    /// Milliseconds since the Unix epoch.
    pub fn millis(&self) -> (r: u64)
        ensures
            r == self.0 / 1_000_000,
    {
        self.0 / 1_000_000
    }

    /// Seconds since the Unix epoch.
    pub fn seconds(&self) -> (r: u64)
        ensures
            r == self.0 / 1_000_000_000,
    {
        self.0 / 1_000_000_000
    }

    /// The time from this timestamp to `now_nanos`, or zero if `now_nanos`
    /// lies before it.
    pub fn elapsed_at(&self, now_nanos: u64) -> (r: Duration)
        ensures
            r.0 == if now_nanos >= self.0 { now_nanos - self.0 } else { 0int },
    {
        Duration::new(if now_nanos >= self.0 { now_nanos - self.0 } else { 0 })
    }

    /// The time elapsed since this timestamp, measured against the current
    /// wall-clock time; zero if the clock reads earlier than the timestamp.
    /// The value depends on the clock; `elapsed_at` carries the exact
    /// contract for a given reading.
    pub fn elapsed(&self) -> Duration {
        let now: u64 = current_time_nanos();
        self.elapsed_at(now)
    }
}

/// Duration in nanoseconds.
#[derive(Debug, Clone, Copy, PartialEq, Eq, PartialOrd, Ord, Hash, Structural)]
pub struct Duration(pub u64);

impl Duration {
    /// Create a duration from nanoseconds.
    pub fn new(nanos: u64) -> (r: Self)
        ensures
            r.0 == nanos,
    {
        Self(nanos)
    }

    /// Create a duration from milliseconds.
    pub fn from_millis(millis: u64) -> (r: Self)
        requires
            millis * 1_000_000 <= u64::MAX,
        ensures
            r.0 == millis * 1_000_000,
    {
        Self(millis * 1_000_000)
    }

    /// Create a duration from seconds.
    pub fn from_secs(secs: u64) -> (r: Self)
        requires
            secs * 1_000_000_000 <= u64::MAX,
        ensures
            r.0 == secs * 1_000_000_000,
    {
        Self(secs * 1_000_000_000)
    }

    /// Nanoseconds in this duration.
    pub fn nanos(&self) -> (r: u64)
        ensures
            r == self.0,
    {
        self.0
    }

    /// Whole milliseconds in this duration.
    pub fn millis(&self) -> (r: u64)
        ensures
            r == self.0 / 1_000_000,
    {
        self.0 / 1_000_000
    }

    /// Whole seconds in this duration.
    pub fn secs(&self) -> (r: u64)
        ensures
            r == self.0 / 1_000_000_000,
    {
        self.0 / 1_000_000_000
    }

    /// Whether the duration is zero.
    pub fn is_zero(&self) -> (r: bool)
        ensures
            r == (self.0 == 0),
    {
        self.0 == 0
    }
}

/// Relies on std::time::SystemTime::now: the current wall-clock time.
/// Nothing is promised of the value; it depends on the machine's clock.
#[verifier::external_body]
pub fn current_time_nanos() -> u64 {
    let nanos = std::time::SystemTime::now()
        .duration_since(std::time::UNIX_EPOCH)
        .unwrap_or_default()
        .as_nanos();
    nanos as u64
}

/// A time reading suitable for measuring intervals and timeouts. On a
/// hosted platform the wall clock is close enough to monotonic for the
/// stack's bookkeeping, so this reads the same clock.
pub fn monotonic_time_nanos() -> u64 {
    current_time_nanos()
}

/// Time synchronization state.
#[derive(Debug, Clone, Copy, PartialEq, Eq, Structural)]
pub enum TimeSync {
    /// Not synchronized.
    NotSynced,
    /// Synchronized with GPS.
    GpsSynced,
    /// Synchronized with a ground station.
    GroundSynced,
    /// Synchronized with network time.
    NetworkSynced,
    /// Synchronized with an atomic clock.
    AtomicSynced,
}

/// Time source for synchronization.
#[derive(Debug, Clone, Copy, PartialEq, Eq, Structural)]
pub enum TimeSource {
    /// Internal oscillator, least accurate.
    Internal,
    /// GPS timing signal.
    Gps,
    /// Ground station time signal.
    GroundStation,
    /// Network Time Protocol.
    Ntp,
    /// Atomic clock reference.
    AtomicClock,
}

impl TimeSource {
    /// Typical accuracy of this time source in nanoseconds.
    pub fn accuracy_nanos(&self) -> (r: u64)
        ensures
            r == match self {
                TimeSource::Internal => 1_000_000_000u64,
                TimeSource::Gps => 100_000u64,
                TimeSource::GroundStation => 1_000u64,
                TimeSource::Ntp => 10_000_000u64,
                TimeSource::AtomicClock => 1u64,
            },
    {
        match self {
            TimeSource::Internal => 1_000_000_000,
            TimeSource::Gps => 100_000,
            TimeSource::GroundStation => 1_000,
            TimeSource::Ntp => 10_000_000,
            TimeSource::AtomicClock => 1,
        }
    }

    /// Whether this source provides sub-millisecond accuracy.
    pub fn is_high_precision(&self) -> (r: bool)
        ensures
            r == (self is Gps || self is GroundStation || self is AtomicClock),
    {
        matches!(self, TimeSource::Gps | TimeSource::GroundStation | TimeSource::AtomicClock)
    }
}

} // verus!
