//! Local wall-clock time as plain values.
//!
//! A [`Timestamp`] counts the seconds since 1970-01-01 00:00:00 of the local
//! wall clock (no zone attached). Day numbers count whole days from that same
//! origin, which fell on a Thursday.

use vstd::prelude::*;

verus! {

/// Seconds in one day.
pub const SECS_PER_DAY: i64 = 86400;

/// Largest timestamp the library computes with (about the year 193,600).
pub const TIMESTAMP_MAX: i64 = 6_048_000_000_000;

/// Smallest timestamp the library computes with; a Thursday midnight.
pub const TIMESTAMP_MIN: i64 = -6_048_000_000_000;

/// The day number of [`TIMESTAMP_MIN`].
pub const DAY_MIN: i64 = -70_000_000;

/// A local wall-clock instant, in whole seconds since 1970-01-01 00:00:00.
#[derive(Clone, Copy, Debug, PartialEq, Eq, Structural, Hash)]
pub struct Timestamp {
    pub secs: i64,
}

/// A time of day, `HH:MM:SS`.
#[derive(Clone, Copy, Debug, PartialEq, Eq, Structural, Hash)]
pub struct TimeOfDay {
    pub hour: u8,
    pub minute: u8,
    pub second: u8,
}

/// A day of the week.
#[derive(Clone, Copy, Debug, PartialEq, Eq, Structural, Hash)]
pub enum Weekday {
    Mon,
    Tue,
    Wed,
    Thu,
    Fri,
    Sat,
    Sun,
}

/// Whether `t` lies in the range the library computes with.
pub open spec fn in_range(t: int) -> bool {
    TIMESTAMP_MIN <= t <= TIMESTAMP_MAX
}

/// The day number that holds the instant `t`.
pub open spec fn day_of(t: int) -> int {
    t / (SECS_PER_DAY as int)
}

/// The seconds elapsed since midnight at the instant `t`.
pub open spec fn second_of_day(t: int) -> int {
    t % (SECS_PER_DAY as int)
}

/// Index of a day number's weekday, Monday being 0 (day 0 was a Thursday).
pub open spec fn weekday_index_of_day(day: int) -> int {
    (day + 3) % 7
}

/// The instant of day `day` at `secs` seconds past midnight.
pub open spec fn at_second(day: int, secs: int) -> int {
    day * (SECS_PER_DAY as int) + secs
}

/// Shifting by a whole number of days moves the day number and keeps the
/// second of the day.
proof fn lemma_shift_div(t: int)
    ensures
        (t - TIMESTAMP_MIN) / (SECS_PER_DAY as int) + DAY_MIN == day_of(t),
        (t - TIMESTAMP_MIN) % (SECS_PER_DAY as int) == second_of_day(t),
{
    let d = SECS_PER_DAY as int;
    let q = t / d;
    let r = t % d;
    vstd::arithmetic::div_mod::lemma_fundamental_div_mod(t, d);
    assert(0 <= r < d);
    assert(t - TIMESTAMP_MIN == (q - DAY_MIN) * d + r) by (nonlinear_arith)
        requires
            t == d * q + r,
            TIMESTAMP_MIN == DAY_MIN * d,
    ;
    vstd::arithmetic::div_mod::lemma_fundamental_div_mod_converse(t - TIMESTAMP_MIN, d, q - DAY_MIN, r);
}

impl Timestamp {
    pub open spec fn wf(&self) -> bool {
        in_range(self.secs as int)
    }

    /// The day number of this instant.
    pub open spec fn day(&self) -> int {
        day_of(self.secs as int)
    }

    /// Builds a timestamp from a second count, if it is in range.
    pub fn from_secs(secs: i64) -> (r: Option<Timestamp>)
        ensures
            r == (if in_range(secs as int) {
                Some(Timestamp { secs })
            } else {
                None
            }),
    {
        if TIMESTAMP_MIN <= secs && secs <= TIMESTAMP_MAX {
            Some(Timestamp { secs })
        } else {
            None
        }
    }

    /// The day number of this instant.
    pub fn day_number(&self) -> (r: i64)
        requires
            self.wf(),
        ensures
            r == self.day(),
    {
        let shifted: i64 = self.secs - TIMESTAMP_MIN;
        let r: i64 = shifted / SECS_PER_DAY + DAY_MIN;
        assert(r == self.day()) by {
            lemma_shift_div(self.secs as int);
        }
        r
    }

    /// The seconds elapsed since midnight.
    pub fn seconds_of_day(&self) -> (r: i64)
        requires
            self.wf(),
        ensures
            r == second_of_day(self.secs as int),
            0 <= r < SECS_PER_DAY,
    {
        let shifted: i64 = self.secs - TIMESTAMP_MIN;
        let r: i64 = shifted % SECS_PER_DAY;
        assert(r == second_of_day(self.secs as int)) by {
            lemma_shift_div(self.secs as int);
        }
        r
    }

    /// The weekday this instant falls on.
    pub fn weekday(&self) -> (r: Weekday)
        requires
            self.wf(),
        ensures
            r.index() == weekday_index_of_day(self.day()),
    {
        let d = self.day_number();
        let k: i64 = d - DAY_MIN;
        assert((k + 3) % 7 == weekday_index_of_day(d as int)) by {
            vstd::arithmetic::div_mod::lemma_mod_multiples_vanish(-10_000_000, d + 3, 7);
        }
        Weekday::from_index((k + 3) % 7)
    }
}

impl TimeOfDay {
    pub open spec fn wf(&self) -> bool {
        self.hour < 24 && self.minute < 60 && self.second < 60
    }

    /// Seconds from midnight to this time.
    pub open spec fn secs(&self) -> int {
        self.hour as int * 3600 + self.minute as int * 60 + self.second as int
    }

    /// Builds `hour:minute:second`, if each part is in range.
    pub fn from_hms(hour: u8, minute: u8, second: u8) -> (r: Option<TimeOfDay>)
        ensures
            r == (if hour < 24 && minute < 60 && second < 60 {
                Some(TimeOfDay { hour, minute, second })
            } else {
                None
            }),
    {
        if hour < 24 && minute < 60 && second < 60 {
            Some(TimeOfDay { hour, minute, second })
        } else {
            None
        }
    }

    /// This time again, if each part is in range.
    pub fn from_hms_checked(&self) -> (r: Option<TimeOfDay>)
        ensures
            r == (if self.wf() {
                Some(*self)
            } else {
                None
            }),
    {
        TimeOfDay::from_hms(self.hour, self.minute, self.second)
    }

    /// Seconds from midnight to this time.
    pub fn seconds_from_midnight(&self) -> (r: i64)
        requires
            self.wf(),
        ensures
            r == self.secs(),
            0 <= r < SECS_PER_DAY,
    {
        self.hour as i64 * 3600 + self.minute as i64 * 60 + self.second as i64
    }
}

impl Weekday {
    /// Days from Monday: Monday is 0, Sunday is 6.
    pub open spec fn index(&self) -> int {
        match self {
            Weekday::Mon => 0,
            Weekday::Tue => 1,
            Weekday::Wed => 2,
            Weekday::Thu => 3,
            Weekday::Fri => 4,
            Weekday::Sat => 5,
            Weekday::Sun => 6,
        }
    }

    /// Days from Monday: Monday is 0, Sunday is 6.
    pub fn num_days_from_monday(&self) -> (r: u8)
        ensures
            r as int == self.index(),
            r < 7,
    {
        match self {
            Weekday::Mon => 0,
            Weekday::Tue => 1,
            Weekday::Wed => 2,
            Weekday::Thu => 3,
            Weekday::Fri => 4,
            Weekday::Sat => 5,
            Weekday::Sun => 6,
        }
    }

    /// The weekday `i` days after Monday.
    pub fn from_index(i: i64) -> (r: Weekday)
        requires
            0 <= i < 7,
        ensures
            r.index() == i,
    {
        if i == 0 {
            Weekday::Mon
        } else if i == 1 {
            Weekday::Tue
        } else if i == 2 {
            Weekday::Wed
        } else if i == 3 {
            Weekday::Thu
        } else if i == 4 {
            Weekday::Fri
        } else if i == 5 {
            Weekday::Sat
        } else {
            Weekday::Sun
        }
    }
}

} // verus!
