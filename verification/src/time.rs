//! Instants and spans of time, counted in whole milliseconds.

use vstd::prelude::*;

verus! {

/// An instant on the UTC time line: milliseconds since 1970-01-01 00:00:00.
#[derive(Clone, Copy, Debug, PartialEq, Eq, Structural)]
pub struct Timestamp {
    pub millis: i64,
}

/// A signed span of time in milliseconds.
#[derive(Clone, Copy, Debug, PartialEq, Eq, Structural)]
pub struct TimeDelta {
    pub millis: i64,
}

impl View for Timestamp {
    type V = int;

    open spec fn view(&self) -> int {
        self.millis as int
    }
}

impl View for TimeDelta {
    type V = int;

    open spec fn view(&self) -> int {
        self.millis as int
    }
}

/// Whether a number of milliseconds can be held by a `Timestamp` or a `TimeDelta`.
pub open spec fn representable(millis: int) -> bool {
    i64::MIN <= millis <= i64::MAX
}

/// The quotient of `a` by a positive `b`, rounded toward zero.
pub open spec fn quotient_toward_zero(a: int, b: int) -> int {
    if a >= 0 {
        a / b
    } else {
        -((-a) / b)
    }
}

impl TimeDelta {
    /// A span of `millis` milliseconds.
    pub fn milliseconds(millis: i64) -> (span: TimeDelta)
        ensures
            span@ == millis,
    {
        TimeDelta { millis }
    }

    /// A span of `seconds` seconds.
    pub fn seconds(seconds: i64) -> (span: TimeDelta)
        requires
            representable(seconds * 1_000),
        ensures
            span@ == seconds * 1_000,
    {
        TimeDelta { millis: seconds * 1_000 }
    }

    /// A span of `minutes` minutes.
    pub fn minutes(minutes: i64) -> (span: TimeDelta)
        requires
            representable(minutes * 60_000),
        ensures
            span@ == minutes * 60_000,
    {
        TimeDelta { millis: minutes * 60_000 }
    }

    /// A span of `hours` hours.
    pub fn hours(hours: i64) -> (span: TimeDelta)
        requires
            representable(hours * 3_600_000),
        ensures
            span@ == hours * 3_600_000,
    {
        TimeDelta { millis: hours * 3_600_000 }
    }

    /// The span in milliseconds.
    pub fn num_milliseconds(self) -> (millis: i64)
        ensures
            millis == self@,
    {
        self.millis
    }

    /// The whole seconds in the span; a fraction of a second is dropped, so
    /// the result is never further from zero than the span.
    pub fn num_seconds(self) -> (seconds: i64)
        ensures
            seconds == quotient_toward_zero(self@, 1_000),
    {
        self.millis / 1_000
    }
}

impl Timestamp {
    /// The instant `millis` milliseconds after the epoch (before it, if negative).
    pub fn from_millis(millis: i64) -> (instant: Timestamp)
        ensures
            instant@ == millis,
    {
        Timestamp { millis }
    }

    /// Milliseconds from the epoch to this instant.
    pub fn timestamp_millis(self) -> (millis: i64)
        ensures
            millis == self@,
    {
        self.millis
    }

    /// Whether this instant lies strictly after `other`.
    pub fn is_after(self, other: Timestamp) -> (after: bool)
        ensures
            after == (self@ > other@),
    {
        self.millis > other.millis
    }

    /// The instant `span` after this one, or `None` where that instant
    /// cannot be represented.
    pub fn checked_add(self, span: TimeDelta) -> (sum: Option<Timestamp>)
        ensures
            representable(self@ + span@) ==> sum == Some(Timestamp { millis: (self@ + span@) as i64 }),
            !representable(self@ + span@) ==> sum is None,
    {
        match self.millis.checked_add(span.millis) {
            Some(millis) => Some(Timestamp { millis }),
            None => None,
        }
    }

    /// The span from `earlier` to this instant (negative if `earlier` is in
    /// fact later), or `None` where that span cannot be represented.
    pub fn checked_duration_since(self, earlier: Timestamp) -> (span: Option<TimeDelta>)
        ensures
            representable(self@ - earlier@) ==> span == Some(TimeDelta { millis: (self@ - earlier@) as i64 }),
            !representable(self@ - earlier@) ==> span is None,
    {
        match self.millis.checked_sub(earlier.millis) {
            Some(millis) => Some(TimeDelta { millis }),
            None => None,
        }
    }
}

} // verus!
