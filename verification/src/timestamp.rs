//! Calendar timestamps with one-minute resolution.
//!
//! The meter stores a moment in time as five raw bytes (two-digit year,
//! month, day, hour, minute); seconds are always zero. This module gives
//! those five fields a validated type and the one piece of arithmetic the
//! decoders need: advancing a timestamp by whole minutes, with rollover
//! across hours, days, months and years of the proleptic Gregorian calendar.

use vstd::prelude::*;

verus! {

/// A calendar date and time, minute resolution, seconds fixed at zero.
#[derive(Clone, Copy, Debug, PartialEq, Eq, Structural)]
pub struct Timestamp {
    /// Full Gregorian year (the decoders produce `2000 +` the raw year byte).
    pub year: u64,
    /// Month of the year, `1 ..= 12` when valid.
    pub month: u8,
    /// Day of the month, `1 ..= days_in_month` when valid.
    pub day: u8,
    /// Hour of the day, `0 ..= 23` when valid.
    pub hour: u8,
    /// Minute of the hour, `0 ..= 59` when valid.
    pub minute: u8,
}

/// A year is a leap year if divisible by 4, except centuries, which must be
/// divisible by 400.
pub open spec fn is_leap_year(year: int) -> bool {
    (year % 4 == 0 && year % 100 != 0) || year % 400 == 0
}

/// Number of days in the given month of the given year.
pub open spec fn spec_days_in_month(year: int, month: int) -> int {
    if month == 2 {
        if is_leap_year(year) {
            29
        } else {
            28
        }
    } else if month == 4 || month == 6 || month == 9 || month == 11 {
        30
    } else {
        31
    }
}

impl Timestamp {
    /// The five fields form a real calendar date and time.
    pub open spec fn valid(self) -> bool {
        &&& 1 <= self.month <= 12
        &&& 1 <= self.day <= spec_days_in_month(self.year as int, self.month as int)
        &&& self.hour < 24
        &&& self.minute < 60
    }
}

/// The timestamp one minute after `t`, rolling over into the next hour, day,
/// month or year as needed.
pub open spec fn plus_one_minute(t: Timestamp) -> Timestamp {
    if t.minute < 59 {
        Timestamp { minute: (t.minute + 1) as u8, ..t }
    } else if t.hour < 23 {
        Timestamp { hour: (t.hour + 1) as u8, minute: 0, ..t }
    } else if t.day < spec_days_in_month(t.year as int, t.month as int) {
        Timestamp { day: (t.day + 1) as u8, hour: 0, minute: 0, ..t }
    } else if t.month < 12 {
        Timestamp { month: (t.month + 1) as u8, day: 1, hour: 0, minute: 0, ..t }
    } else {
        Timestamp { year: (t.year + 1) as u64, month: 1, day: 1, hour: 0, minute: 0 }
    }
}

/// The timestamp `n` minutes after `t`.
pub open spec fn plus_minutes(t: Timestamp, n: nat) -> Timestamp
    decreases n,
{
    if n == 0 {
        t
    } else {
        plus_one_minute(plus_minutes(t, (n - 1) as nat))
    }
}

/// Number of days in the given month of the given year.
pub fn days_in_month(year: u64, month: u8) -> (r: u8)
    requires
        1 <= month <= 12,
    ensures
        r == spec_days_in_month(year as int, month as int),
{
    if month == 2 {
        let leap: bool = (year % 4 == 0 && year % 100 != 0) || year % 400 == 0;
        if leap {
            29
        } else {
            28
        }
    } else if month == 4 || month == 6 || month == 9 || month == 11 {
        30
    } else {
        31
    }
}

impl Timestamp {
    /// Builds a timestamp from its five fields, accepting exactly the values
    /// that form a real calendar date and time.
    pub fn from_fields(year: u64, month: u8, day: u8, hour: u8, minute: u8) -> (r: Option<
        Timestamp,
    >)
        ensures
            ({
                let t = (Timestamp { year, month, day, hour, minute });
                match r {
                    Some(got) => got == t && t.valid(),
                    None => !t.valid(),
                }
            }),
    {
        if 1 <= month && month <= 12 && 1 <= day && day <= days_in_month(year, month) && hour < 24
            && minute < 60 {
            Some(Timestamp { year, month, day, hour, minute })
        } else {
            None
        }
    }

    /// The timestamp one minute later. The year bound rules out integer
    /// overflow when rolling over the last minute of a year.
    pub fn add_one_minute(self) -> (r: Timestamp)
        requires
            self.valid(),
            self.year < u64::MAX,
        ensures
            r == plus_one_minute(self),
            r.valid(),
            r.year <= self.year + 1,
    {
        if self.minute < 59 {
            Timestamp { minute: self.minute + 1, ..self }
        } else if self.hour < 23 {
            Timestamp { hour: self.hour + 1, minute: 0, ..self }
        } else if self.day < days_in_month(self.year, self.month) {
            Timestamp { day: self.day + 1, hour: 0, minute: 0, ..self }
        } else if self.month < 12 {
            Timestamp { month: self.month + 1, day: 1, hour: 0, minute: 0, ..self }
        } else {
            Timestamp { year: self.year + 1, month: 1, day: 1, hour: 0, minute: 0 }
        }
    }
}

} // verus!
