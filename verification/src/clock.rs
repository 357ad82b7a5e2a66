//! Points in time and spans of time as plain numbers, and the two clocks that
//! the library reads.

use vstd::prelude::*;
use std::time::SystemTime;

verus! {

/// A span of time in seconds and nanoseconds. Counted from the Unix epoch it
/// also names a point in time.
#[derive(Clone, Copy, Debug, PartialEq, Eq, Structural)]
pub struct TimeSpan {
    pub secs: u64,
    pub nanos: u32,
}

/// A calendar instant: seconds since the Unix epoch, which may be negative,
/// and the nanoseconds into that second.
#[derive(Clone, Copy, Debug, PartialEq, Eq, Structural)]
pub struct Timestamp {
    pub secs: i64,
    pub nanos: u32,
}

impl TimeSpan {
    /// The whole span in nanoseconds.
    pub open spec fn as_nanos(self) -> int {
        self.secs * 1_000_000_000 + self.nanos
    }

    /// The span in tenths of a second, rounded down.
    pub open spec fn as_decis(self) -> int {
        self.secs * 10 + self.nanos / 100_000_000
    }

    pub fn new(secs: u64, nanos: u32) -> (t: TimeSpan)
        ensures
            t.secs == secs,
            t.nanos == nanos,
    {
        TimeSpan { secs, nanos }
    }

    pub fn zero() -> (t: TimeSpan)
        ensures
            t.as_nanos() == 0,
            t.secs == 0,
            t.nanos == 0,
    {
        TimeSpan { secs: 0, nanos: 0 }
    }

    /// The span that is `decis` tenths of a second long.
    pub fn from_decis(decis: u64) -> (t: TimeSpan)
        ensures
            t.as_nanos() == decis * 100_000_000,
            t.nanos < 1_000_000_000,
    {
        TimeSpan { secs: decis / 10, nanos: ((decis % 10) as u32) * 100_000_000 }
    }

    /// Tenths of a second in the span, rounded down.
    pub fn deciseconds(&self) -> (d: u128)
        ensures
            d == self.as_decis(),
    {
        (self.secs as u128) * 10 + (self.nanos / 100_000_000) as u128
    }
}

impl Timestamp {
    /// `self` is the same instant as `other` or a later one.
    pub open spec fn spec_at_or_after(self, other: Timestamp) -> bool {
        self.secs > other.secs || (self.secs == other.secs && self.nanos >= other.nanos)
    }

    pub fn at_or_after(&self, other: &Timestamp) -> (b: bool)
        ensures
            b == self.spec_at_or_after(*other),
    {
        self.secs > other.secs || (self.secs == other.secs && self.nanos >= other.nanos)
    }
}

#[verifier::external_type_specification]
#[verifier::external_body]
pub struct ExSystemTime(SystemTime);

/// `SystemTime::now`: the reading of the system clock. Nothing is claimed of
/// the value.
#[verifier::external_body]
fn system_now() -> (t: SystemTime) {
    SystemTime::now()
}

/// `SystemTime::duration_since` with the Unix epoch as the earlier time: the
/// span from the epoch to `t`, or nothing where `t` lies before the epoch.
/// The nanoseconds of the span are its fraction of a second.
#[verifier::external_body]
fn since_epoch(t: &SystemTime) -> (d: Option<TimeSpan>)
    ensures
        d matches Some(span) ==> span.nanos < 1_000_000_000,
{
    match t.duration_since(std::time::UNIX_EPOCH) {
        Ok(span) => Some(TimeSpan { secs: span.as_secs(), nanos: span.subsec_nanos() }),
        Err(_) => None,
    }
}

/// `chrono::Utc::now`: the calendar time of the system clock, as seconds
/// since the epoch and nanoseconds. Nothing is claimed of the value. Chrono
/// ends the program where the system clock is set before the epoch, so this
/// is called only behind a look at the clock.
#[verifier::external_body]
fn utc_clock() -> (t: Timestamp) {
    let now = chrono::Utc::now();
    Timestamp { secs: now.timestamp(), nanos: now.timestamp_subsec_nanos() }
}

/// The calendar time by the system clock. A clock that is set before the
/// epoch reads as the epoch itself.
pub(crate) fn utc_now() -> (t: Timestamp) {
    let now = system_now();
    match since_epoch(&now) {
        Some(_) => utc_clock(),
        None => Timestamp { secs: 0, nanos: 0 },
    }
}

/// Time since the Unix epoch by the system clock. A clock that is set before
/// the epoch reads as the epoch itself.
pub fn unix_time() -> (t: TimeSpan)
    ensures
        t.nanos < 1_000_000_000,
{
    let now = system_now();
    reading(since_epoch(&now))
}

/// What a look at the system clock counts as: the span that has passed
/// since the epoch, and no time at all where the clock stands before the
/// epoch.
pub open spec fn spec_reading(offset: Option<TimeSpan>) -> TimeSpan {
    match offset {
        Some(span) => span,
        None => TimeSpan { secs: 0, nanos: 0 },
    }
}

/// What a look at the system clock counts as, where `offset` is the span
/// from the epoch to the time that the clock shows, if there is one.
pub fn reading(offset: Option<TimeSpan>) -> (t: TimeSpan)
    ensures
        t == spec_reading(offset),
{
    match offset {
        Some(span) => span,
        None => TimeSpan::zero(),
    }
}

} // verus!
