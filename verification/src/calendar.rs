//! Calendar values as the filters and rows carry them: plain records that the
//! compiler binds unchanged.

use vstd::prelude::*;

verus! {

/// A calendar date.
#[derive(Clone, Copy, Debug, PartialEq, Eq, Structural)]
pub struct Date {
    pub year: i32,
    pub month: u32,
    pub day: u32,
}

/// A time of day.
#[derive(Clone, Copy, Debug, PartialEq, Eq, Structural)]
pub struct Time {
    pub hour: u32,
    pub minute: u32,
    pub second: u32,
    pub nanosecond: u32,
}

/// A date together with a time of day.
#[derive(Clone, Copy, Debug, PartialEq, Eq, Structural)]
pub struct DateTime {
    pub date: Date,
    pub time: Time,
}

impl Time {
    /// The first instant of a day.
    pub open spec fn spec_midnight() -> Time {
        Time { hour: 0, minute: 0, second: 0, nanosecond: 0 }
    }

    /// The first instant of a day.
    #[verifier::when_used_as_spec(spec_midnight)]
    pub fn midnight() -> (time: Time)
        ensures
            time == Time::spec_midnight(),
    {
        Time { hour: 0, minute: 0, second: 0, nanosecond: 0 }
    }
}

impl Date {
    /// This date at the given time of day.
    pub open spec fn spec_and_time(self, time: Time) -> DateTime {
        DateTime { date: self, time }
    }

    /// This date at the given time of day.
    #[verifier::when_used_as_spec(spec_and_time)]
    pub fn and_time(self, time: Time) -> (moment: DateTime)
        ensures
            moment == self.spec_and_time(time),
    {
        DateTime { date: self, time }
    }

    /// The instant a proximity search on this date aims at: the date at
    /// `time` where one is given, else at midnight.
    pub open spec fn spec_target(self, time: Option<Time>) -> DateTime {
        match time {
            Some(t) => self.and_time(t),
            None => self.and_time(Time::midnight()),
        }
    }

    /// The instant a proximity search on this date aims at: the date at
    /// `time` where one is given, else at midnight.
    #[verifier::when_used_as_spec(spec_target)]
    pub fn target(self, time: Option<Time>) -> (moment: DateTime)
        ensures
            moment == self.spec_target(time),
    {
        match time {
            Some(t) => self.and_time(t),
            None => self.and_time(Time::midnight()),
        }
    }
}

} // verus!
