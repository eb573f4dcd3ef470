//! Calendar dates and times of day as plain numbers.

use vstd::prelude::*;

verus! {

/// A calendar date, counted in days. Day 1 is January 1 of year 1 in the
/// proleptic Gregorian calendar; a later date has a larger number.
#[derive(Debug, Clone, Copy, PartialEq, Eq, Structural)]
pub struct Date {
    pub days: i32,
}

/// A time of day: whole seconds since midnight and the nanoseconds after
/// them.
#[derive(Debug, Clone, Copy, PartialEq, Eq, Structural)]
pub struct TimeOfDay {
    pub seconds: u32,
    pub nanos: u32,
}

/// The date and time at which an operation runs.
#[derive(Debug, Clone, Copy, PartialEq, Eq, Structural)]
pub struct Moment {
    pub date: Date,
    pub time: TimeOfDay,
}

/// A point in time: whole seconds since the start of 1970 in UTC, and the
/// nanoseconds after them.
#[derive(Debug, Clone, Copy, PartialEq, Eq, Structural)]
pub struct Timestamp {
    pub seconds: i64,
    pub nanos: u32,
}

impl Date {
    pub open spec fn is_before(self, other: Date) -> bool {
        self.days < other.days
    }

    /// Whether this date lies strictly before `other`.
    pub fn before(&self, other: &Date) -> (earlier: bool)
        ensures
            earlier == self.is_before(*other),
    {
        self.days < other.days
    }
}

} // verus!
