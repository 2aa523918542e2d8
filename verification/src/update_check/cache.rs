//! How long a cached newest-version answer stays usable.
//!
//! The cache is a single file holding nothing but a version string; its age
//! is the file's mtime, measured by the caller.

use vstd::prelude::*;

verus! {

/// A length of time, as whole seconds and the nanoseconds past them
/// (`nanos` below one billion), ordered by length.
#[derive(Clone, Copy, Debug, PartialEq, Eq, Structural)]
pub struct TimeSpan {
    pub secs: u64,
    pub nanos: u32,
}

/// `a` is shorter than `b`.
pub open spec fn shorter(a: TimeSpan, b: TimeSpan) -> bool {
    a.secs < b.secs || (a.secs == b.secs && a.nanos < b.nanos)
}

impl TimeSpan {
    /// A span of whole seconds.
    pub fn from_secs(secs: u64) -> (t: TimeSpan)
        ensures
            t.secs == secs && t.nanos == 0,
    {
        TimeSpan { secs, nanos: 0 }
    }

    /// No time at all.
    pub fn zero() -> (t: TimeSpan)
        ensures
            t.secs == 0 && t.nanos == 0,
    {
        TimeSpan { secs: 0, nanos: 0 }
    }

    /// Whether this span is shorter than `other`.
    pub fn is_shorter_than(&self, other: &TimeSpan) -> (b: bool)
        ensures
            b == shorter(*self, *other),
    {
        self.secs < other.secs || (self.secs == other.secs && self.nanos < other.nanos)
    }
}

/// Seconds a cached version is reused before crates.io is consulted again:
/// one day.
pub const DEFAULT_INTERVAL_SECS: u64 = 86400;

/// How long a cached version is reused before crates.io is consulted again.
pub fn default_interval() -> (t: TimeSpan)
    ensures
        t.secs == DEFAULT_INTERVAL_SECS && t.nanos == 0,
{
    TimeSpan::from_secs(DEFAULT_INTERVAL_SECS)
}

/// Whether a cached version may be reused, given its age.
///
/// `age` is `None` when no cache file exists. A missing entry is deliberately
/// *not* fresh, so the first run after an install — or after clearing the
/// cache — actually reaches the network. An entry is fresh only while it is
/// strictly younger than the interval, so a zero interval always reaches the
/// network.
pub fn is_fresh(age: Option<TimeSpan>, interval: TimeSpan) -> (b: bool)
    ensures
        b == (age matches Some(a) && shorter(a, interval)),
{
    match age {
        Some(a) => a.is_shorter_than(&interval),
        None => false,
    }
}

} // verus!
